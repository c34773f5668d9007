//! Log levels, level filters, and the most-specific-module-wins level lookup.
//!
//! A record carries a [`Level`]; the configuration carries a default
//! [`LevelFilter`] and a list of per-module overrides.  The override list is
//! kept sorted by descending module-name length, so the first entry whose name
//! is a prefix of a record's target is the most specific match.

use vstd::prelude::*;

verus! {

/// The severity of a single log record, from most to least severe.
#[derive(Clone, Copy, Debug, PartialEq, Eq, Structural)]
pub enum Level {
    Error,
    Warn,
    Info,
    Debug,
    Trace,
}

/// A verbosity ceiling: `Off` rejects everything, `Trace` accepts everything.
#[derive(Clone, Copy, Debug, PartialEq, Eq, Structural)]
pub enum LevelFilter {
    Off,
    Error,
    Warn,
    Info,
    Debug,
    Trace,
}

/// Numeric rank of a record level; a greater rank means more verbose.
pub open spec fn level_rank(l: Level) -> int {
    match l {
        Level::Error => 1,
        Level::Warn => 2,
        Level::Info => 3,
        Level::Debug => 4,
        Level::Trace => 5,
    }
}

/// Numeric rank of a filter; a record passes a filter iff its rank is at most
/// the filter's rank.
pub open spec fn filter_rank(f: LevelFilter) -> int {
    match f {
        LevelFilter::Off => 0,
        LevelFilter::Error => 1,
        LevelFilter::Warn => 2,
        LevelFilter::Info => 3,
        LevelFilter::Debug => 4,
        LevelFilter::Trace => 5,
    }
}

/// Whether a record of level `l` passes the filter `f`.
pub open spec fn level_passes(l: Level, f: LevelFilter) -> bool {
    level_rank(l) <= filter_rank(f)
}

/// The greater (more verbose) of two filters.
pub open spec fn filter_max(a: LevelFilter, b: LevelFilter) -> LevelFilter {
    if filter_rank(a) >= filter_rank(b) {
        a
    } else {
        b
    }
}

impl Level {
    /// The numeric rank of this level, as an executable value.
    pub fn rank(&self) -> (r: u8)
        ensures
            r as int == level_rank(*self),
    {
        match self {
            Level::Error => 1,
            Level::Warn => 2,
            Level::Info => 3,
            Level::Debug => 4,
            Level::Trace => 5,
        }
    }
}

impl LevelFilter {
    /// The numeric rank of this filter, as an executable value.
    pub fn rank(&self) -> (r: u8)
        ensures
            r as int == filter_rank(*self),
    {
        match self {
            LevelFilter::Off => 0,
            LevelFilter::Error => 1,
            LevelFilter::Warn => 2,
            LevelFilter::Info => 3,
            LevelFilter::Debug => 4,
            LevelFilter::Trace => 5,
        }
    }

    /// The greater (more verbose) of `self` and `other`.
    pub fn max_with(self, other: LevelFilter) -> (r: LevelFilter)
        ensures
            r == filter_max(self, other),
    {
        if self.rank() >= other.rank() {
            self
        } else {
            other
        }
    }
}

/// Whether a record of level `l` passes the filter `f`, as executable code.
pub fn passes(l: Level, f: LevelFilter) -> (r: bool)
    ensures
        r == level_passes(l, f),
{
    l.rank() <= f.rank()
}

/// A per-module override: records whose target starts with `name` are held to
/// `level` instead of the default filter.
#[derive(Clone, Debug)]
pub struct ModuleLevel {
    /// The module-path prefix that this override applies to.
    pub name: Vec<u8>,
    /// The filter for records whose target matches that prefix.
    pub level: LevelFilter,
}

/// Whether `p` is a prefix of `t`.
pub open spec fn is_prefix_of(p: Seq<u8>, t: Seq<u8>) -> bool {
    p.len() <= t.len() && t.take(p.len() as int) == p
}

/// Whether `p` is a prefix of `t`, as executable code.
pub fn starts_with(t: &[u8], p: &[u8]) -> (r: bool)
    ensures
        r == is_prefix_of(p@, t@),
{
    if p.len() > t.len() {
        assert(!is_prefix_of(p@, t@));
        return false;
    }
    let mut i: usize = 0;
    while i < p.len()
        invariant
            i <= p.len() <= t.len(),
            forall|j: int| 0 <= j < i ==> t@[j] == p@[j],
        decreases p.len() - i,
    {
        if t[i] != p[i] {
            assert(t@.take(p@.len() as int)[i as int] != p@[i as int]);
            return false;
        }
        i += 1;
    }
    assert(t@.take(p@.len() as int) =~= p@);
    true
}

/// The override list sorted from most-specific (longest name) to
/// least-specific, so that the first prefix match is the most specific one.
pub open spec fn sorted_by_name_len_desc(ms: Seq<ModuleLevel>) -> bool {
    forall|i: int, j: int| 0 <= i < j < ms.len() ==> ms[i].name@.len() >= ms[j].name@.len()
}

/// The filter of the first override whose name is a prefix of `target`,
/// if any.
pub open spec fn first_match(ms: Seq<ModuleLevel>, target: Seq<u8>) -> Option<LevelFilter>
    decreases ms.len(),
{
    if ms.len() == 0 {
        Option::None
    } else if is_prefix_of(ms[0].name@, target) {
        Option::Some(ms[0].level)
    } else {
        first_match(ms.drop_first(), target)
    }
}

/// The filter in force for `target`: the most specific matching override, or
/// the default filter when no override matches.
pub open spec fn effective_filter(
    ms: Seq<ModuleLevel>,
    default: LevelFilter,
    target: Seq<u8>,
) -> LevelFilter {
    match first_match(ms, target) {
        Option::Some(f) => f,
        Option::None => default,
    }
}

/// Looks up the filter in force for `target` by scanning the override list in
/// order and taking the first prefix match.
pub fn lookup_filter(ms: &Vec<ModuleLevel>, default: LevelFilter, target: &[u8]) -> (r: LevelFilter)
    ensures
        r == effective_filter(ms@, default, target@),
{
    let mut i: usize = 0;
    assert(ms@.skip(0) =~= ms@);
    while i < ms.len()
        invariant
            i <= ms@.len(),
            first_match(ms@, target@) == first_match(ms@.skip(i as int), target@),
        decreases ms@.len() - i,
    {
        assert(ms@.skip(i as int)[0] == ms@[i as int]);
        if starts_with(target, ms[i].name.as_slice()) {
            return ms[i].level;
        }
        assert(ms@.skip(i as int).drop_first() =~= ms@.skip(i as int + 1));
        i += 1;
    }
    assert(ms@.skip(i as int) =~= Seq::<ModuleLevel>::empty());
    default
}

/// The greatest filter among the overrides and the default: the coarse global
/// ceiling under which some record could still be accepted.
pub open spec fn overall_max_filter(ms: Seq<ModuleLevel>, default: LevelFilter) -> LevelFilter
    decreases ms.len(),
{
    if ms.len() == 0 {
        default
    } else {
        filter_max(overall_max_filter(ms.drop_last(), default), ms.last().level)
    }
}

/// Computes the greatest filter among the overrides and the default.
pub fn compute_max_filter(ms: &Vec<ModuleLevel>, default: LevelFilter) -> (r: LevelFilter)
    ensures
        r == overall_max_filter(ms@, default),
{
    let mut r = default;
    let mut i: usize = 0;
    while i < ms.len()
        invariant
            i <= ms@.len(),
            r == overall_max_filter(ms@.take(i as int), default),
        decreases ms@.len() - i,
    {
        assert(ms@.take(i as int + 1).drop_last() =~= ms@.take(i as int));
        assert(ms@.take(i as int + 1).last() == ms@[i as int]);
        r = r.max_with(ms[i].level);
        i += 1;
    }
    assert(ms@.take(i as int) =~= ms@);
    r
}

/// Any level that passes the filter in force for some target also passes the
/// overall maximum filter: the global ceiling never rejects a record that a
/// module-specific lookup would accept.
pub proof fn lemma_max_filter_bounds_effective(
    ms: Seq<ModuleLevel>,
    default: LevelFilter,
    target: Seq<u8>,
)
    ensures
        filter_rank(effective_filter(ms, default, target)) <= filter_rank(
            overall_max_filter(ms, default),
        ),
    decreases ms.len(),
{
    if ms.len() > 0 {
        lemma_max_filter_bounds_effective(ms.drop_first(), default, target);
        lemma_max_filter_monotone(ms.drop_first(), ms, default);
        lemma_max_filter_member(ms, default, 0);
    }
}

/// Every override's level is bounded by the overall maximum filter.
proof fn lemma_max_filter_member(ms: Seq<ModuleLevel>, default: LevelFilter, i: int)
    requires
        0 <= i < ms.len(),
    ensures
        filter_rank(ms[i].level) <= filter_rank(overall_max_filter(ms, default)),
    decreases ms.len(),
{
    if i + 1 == ms.len() {
    } else {
        assert(ms.drop_last()[i] == ms[i]);
        lemma_max_filter_member(ms.drop_last(), default, i);
    }
}

/// Extending the override list can only raise the overall maximum filter.
proof fn lemma_max_filter_monotone(pre: Seq<ModuleLevel>, ms: Seq<ModuleLevel>, default: LevelFilter)
    requires
        pre == ms.drop_first(),
        ms.len() > 0,
    ensures
        filter_rank(overall_max_filter(pre, default)) <= filter_rank(
            overall_max_filter(ms, default),
        ),
    decreases ms.len(),
{
    if pre.len() == 0 {
    } else {
        assert(pre.drop_last() =~= ms.drop_last().drop_first());
        assert(pre.last() == ms.last());
        lemma_max_filter_monotone(ms.drop_last().drop_first(), ms.drop_last(), default);
    }
}

} // verus!
