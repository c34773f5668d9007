//! The logger facade, its configuration builder, and the global registry.
//!
//! The facade filters records by a most-specific-module-wins level lookup,
//! renders accepted records into byte-exact lines, and hands them to the
//! bounded FIFO queue that the writer drains.  Shutdown flips a running flag
//! from on to off exactly once; installing the logger into the registry
//! succeeds at most once per registry.
//!
//! Back-pressure policy: when the queue is full, the threaded pipeline built
//! around this library blocks the producing thread until space frees up.
//! This sequential model cannot suspend its caller, so it reports the full
//! queue to the caller instead, and never drops a message silently.

use vstd::prelude::*;
use vstd::slice::slice_to_vec;

use crate::clock::{
    clock_now_at_offset, clock_now_utc, clock_parts_valid, ClockParts, MAX_UTC_OFFSET_SECONDS,
    MIN_UTC_OFFSET_SECONDS,
};
use crate::color::{label_ok, level_label_spec, level_string};
use crate::errors::NonBlockingLoggerError;
use crate::level::{
    compute_max_filter, effective_filter, level_passes, lookup_filter, overall_max_filter, passes,
    sorted_by_name_len_desc, Level, LevelFilter, ModuleLevel,
};
use crate::line::{
    compose_line, format_timestamp_offset, format_timestamp_utc, line_spec, offset_timestamp_spec,
    utc_timestamp_spec,
};
use crate::queue::{HandoffQueue, WorkerMessage};
use crate::worker::{concat_payloads, flush_ids, LogWorker};

verus! {

/// The default capacity of the hand-off queue.
pub const DEFAULT_CHANNEL_SIZE: usize = 16384;

/// When and how lines carry a timestamp.
#[derive(Clone, Copy, Debug, PartialEq, Eq, Structural)]
pub enum Timestamps {
    /// No timestamp field.
    Disabled,
    /// UTC, ending in a literal `Z`.
    Utc,
    /// A fixed UTC offset in seconds, ending in an explicit numeric marker.
    UtcOffset(i32),
}

/// The output stream a logger writes to, chosen at construction.
#[derive(Clone, Copy, Debug, PartialEq, Eq, Structural)]
pub enum Destination {
    /// The standard output stream.
    Stdout,
    /// The standard error stream.
    Stderr,
}

/// The configuration of one logger.
#[derive(Clone, Debug)]
pub struct NonBlockingOptions {
    /// The level filter for targets without a matching override.
    pub default_level: LevelFilter,
    /// Per-module overrides, sorted from most-specific (longest name) to
    /// least-specific, so the first prefix match wins.
    pub module_levels: Vec<ModuleLevel>,
    /// Whether level labels are colored.
    pub colors: bool,
    /// When and how lines carry a timestamp.
    pub timestamps: Timestamps,
    /// The capacity of the hand-off queue.
    pub channel_size: usize,
    /// The output stream the writer owns.
    pub destination: Destination,
}

/// The timestamp field of a line: empty, or a timestamp followed by one
/// separating space.
pub open spec fn timestamp_field_spec(mode: Timestamps, ts: ClockParts) -> Seq<u8> {
    match mode {
        Timestamps::Disabled => Seq::<u8>::empty(),
        Timestamps::Utc => utc_timestamp_spec(ts) + seq![32u8],
        Timestamps::UtcOffset(s) => offset_timestamp_spec(ts, s as int) + seq![32u8],
    }
}

/// The line that a record renders to under `opts`, given the clock reading
/// `ts` (ignored when timestamps are disabled) and the level string `ls`.
pub open spec fn rendered_line_spec(
    opts: NonBlockingOptions,
    ls: Seq<u8>,
    ts: ClockParts,
    target: Seq<u8>,
    thread: Seq<u8>,
    message: Seq<u8>,
) -> Seq<u8> {
    line_spec(timestamp_field_spec(opts.timestamps, ts), ls, target, thread, message)
}

impl NonBlockingOptions {
    /// Well-formedness: the override list is sorted most-specific-first and a
    /// fixed offset lies in the supported range.
    pub open spec fn wf(self) -> bool {
        &&& sorted_by_name_len_desc(self.module_levels@)
        &&& (self.timestamps matches Timestamps::UtcOffset(s) ==> MIN_UTC_OFFSET_SECONDS <= s
            <= MAX_UTC_OFFSET_SECONDS)
    }

    /// Renders one record into its line, using the injected clock reading
    /// `ts` for the timestamp field.
    pub fn render_line_at(
        &self,
        ts: &ClockParts,
        level: Level,
        target: &[u8],
        thread: &[u8],
        message: &[u8],
    ) -> (r: Vec<u8>)
        requires
            self.wf(),
            clock_parts_valid(*ts),
        ensures
            exists|ls: Seq<u8>|
                #[trigger] label_ok(ls, level, self.colors) && r@ == rendered_line_spec(
                    *self,
                    ls,
                    *ts,
                    target@,
                    thread@,
                    message@,
                ),
            !self.colors ==> r@ == rendered_line_spec(
                *self,
                level_label_spec(level),
                *ts,
                target@,
                thread@,
                message@,
            ),
    {
        let ts_field: Vec<u8> = match self.timestamps {
            Timestamps::Disabled => Vec::new(),
            Timestamps::Utc => {
                let mut t = format_timestamp_utc(ts);
                t.push(32u8);
                t
            },
            Timestamps::UtcOffset(s) => {
                let mut t = format_timestamp_offset(ts, s);
                t.push(32u8);
                t
            },
        };
        assert(ts_field@ =~= timestamp_field_spec(self.timestamps, *ts));
        let ls = level_string(level, self.colors);
        let r = compose_line(
            ts_field.as_slice(),
            ls.as_slice(),
            target,
            thread,
            message,
        );
        assert(label_ok(ls@, level, self.colors) && r@ == rendered_line_spec(
            *self,
            ls@,
            *ts,
            target@,
            thread@,
            message@,
        ));
        r
    }

    /// Renders one record into its line, reading the clock as the timestamp
    /// mode asks.
    pub fn render_line(&self, level: Level, target: &[u8], thread: &[u8], message: &[u8]) -> (r:
        Vec<u8>)
        requires
            self.wf(),
        ensures
            exists|ts: ClockParts, ls: Seq<u8>|
                #![trigger rendered_line_spec(*self, ls, ts, target@, thread@, message@)]
                clock_parts_valid(ts) && label_ok(ls, level, self.colors) && r@
                    == rendered_line_spec(*self, ls, ts, target@, thread@, message@),
    {
        let ts: ClockParts = match self.timestamps {
            Timestamps::Disabled => clock_now_utc(),
            Timestamps::Utc => clock_now_utc(),
            Timestamps::UtcOffset(s) => clock_now_at_offset(s),
        };
        self.render_line_at(&ts, level, target, thread, message)
    }
}

/// The target a line carries: the record's own target, or, when that is
/// empty, the record's module path.
pub fn effective_target<'a>(target: &'a [u8], fallback: &'a [u8]) -> (r: &'a [u8])
    ensures
        target@.len() > 0 ==> r@ == target@,
        target@.len() == 0 ==> r@ == fallback@,
{
    if target.len() > 0 {
        target
    } else {
        fallback
    }
}

/// The fluent configuration builder of a logger.
pub struct NonBlockingLoggerBuilder {
    options: NonBlockingOptions,
}

/// The index where an override of the given name length belongs in a list
/// sorted by descending name length: after every entry at least as long,
/// before the first strictly shorter one.  This matches a stable
/// sort-by-descending-length of the list with the new entry appended.
pub open spec fn override_insert_pos(ms: Seq<ModuleLevel>, name_len: nat) -> int
    decreases ms.len(),
{
    if ms.len() == 0 {
        0
    } else if ms[0].name@.len() < name_len {
        0
    } else {
        1 + override_insert_pos(ms.drop_first(), name_len)
    }
}

impl NonBlockingLoggerBuilder {
    /// The configuration built so far.
    pub closed spec fn options_spec(self) -> NonBlockingOptions {
        self.options
    }

    /// Well-formedness of the configuration built so far.
    pub open spec fn wf(self) -> bool {
        self.options_spec().wf()
    }

    /// A builder with the default configuration: everything logged, colors
    /// on, UTC timestamps, the default queue capacity.
    pub fn new() -> (b: NonBlockingLoggerBuilder)
        ensures
            b.wf(),
            b.options_spec().default_level == LevelFilter::Trace,
            b.options_spec().module_levels@ == Seq::<ModuleLevel>::empty(),
            b.options_spec().colors == true,
            b.options_spec().timestamps == Timestamps::Utc,
            b.options_spec().channel_size == DEFAULT_CHANNEL_SIZE,
            b.options_spec().destination == Destination::Stdout,
    {
        NonBlockingLoggerBuilder {
            options: NonBlockingOptions {
                default_level: LevelFilter::Trace,
                module_levels: Vec::new(),
                colors: true,
                timestamps: Timestamps::Utc,
                channel_size: DEFAULT_CHANNEL_SIZE,
                destination: Destination::Stdout,
            },
        }
    }

    /// Sets the default log level, overridable per module.
    #[must_use]
    pub fn with_level(self, level: LevelFilter) -> (b: Self)
        requires
            self.wf(),
        ensures
            b.wf(),
            b.options_spec() == (NonBlockingOptions {
                default_level: level,
                ..self.options_spec()
            }),
    {
        let mut b = self;
        b.options.default_level = level;
        b
    }

    /// Adds a per-module override: records whose target starts with `target`
    /// are held to `level`.  The override list stays sorted from
    /// most-specific to least-specific, so the level lookup can take the
    /// first prefix match.
    #[must_use]
    pub fn with_module_level(self, target: &[u8], level: LevelFilter) -> (b: Self)
        requires
            self.wf(),
        ensures
            b.wf(),
            exists|entry: ModuleLevel|
                #![trigger entry.name]
                entry.name@ == target@ && entry.level == level
                    && b.options_spec().module_levels@ == self.options_spec().module_levels@.insert(
                    override_insert_pos(self.options_spec().module_levels@, target@.len()),
                    entry,
                ),
            b.options_spec().default_level == self.options_spec().default_level,
            b.options_spec().colors == self.options_spec().colors,
            b.options_spec().timestamps == self.options_spec().timestamps,
            b.options_spec().channel_size == self.options_spec().channel_size,
            b.options_spec().destination == self.options_spec().destination,
    {
        let mut b = self;
        let ghost ms0 = b.options.module_levels@;
        let mut i: usize = 0;
        assert(ms0.skip(0) =~= ms0);
        while i < b.options.module_levels.len() && b.options.module_levels[i].name.len()
            >= target.len()
            invariant
                i <= ms0.len(),
                b.options.module_levels@ == ms0,
                forall|k: int| 0 <= k < i ==> #[trigger] ms0[k].name@.len() >= target@.len(),
                override_insert_pos(ms0, target@.len()) == i + override_insert_pos(
                    ms0.skip(i as int),
                    target@.len(),
                ),
            decreases ms0.len() - i,
        {
            assert(ms0.skip(i as int)[0] == ms0[i as int]);
            assert(ms0.skip(i as int).drop_first() =~= ms0.skip(i as int + 1));
            i += 1;
        }
        if i == b.options.module_levels.len() {
            assert(ms0.skip(i as int) =~= Seq::<ModuleLevel>::empty());
        } else {
            assert(ms0.skip(i as int)[0] == ms0[i as int]);
        }
        assert(override_insert_pos(ms0, target@.len()) == i as int);
        let entry = ModuleLevel { name: slice_to_vec(target), level };
        let ghost gentry = entry;
        b.options.module_levels.insert(i, entry);
        proof {
            ms0.insert_ensures(i as int, gentry);
            let ms1 = b.options.module_levels@;
            assert(ms1 == ms0.insert(i as int, gentry));
            assert forall|x: int, y: int| 0 <= x < y < ms1.len() implies ms1[x].name@.len()
                >= ms1[y].name@.len() by {
                if y < i {
                    assert(ms1[x] == ms0[x] && ms1[y] == ms0[y]);
                } else if y == i {
                    assert(ms1[x] == ms0[x]);
                    assert(ms1[y] == gentry);
                } else {
                    assert(ms1[y] == ms0[y - 1]);
                    assert(i < ms1.len());
                    if x < i {
                        assert(ms1[x] == ms0[x]);
                    } else if x == i {
                        assert(ms1[x] == gentry);
                        assert(i < ms0.len());
                        assert(ms0[i as int].name@.len() < target@.len());
                    } else {
                        assert(ms1[x] == ms0[x - 1]);
                    }
                }
            }
        }
        b
    }

    /// Switches coloring of level labels on or off.
    #[must_use]
    pub fn with_colors(self, colors: bool) -> (b: Self)
        requires
            self.wf(),
        ensures
            b.wf(),
            b.options_spec() == (NonBlockingOptions { colors, ..self.options_spec() }),
    {
        let mut b = self;
        b.options.colors = colors;
        b
    }

    /// Disables timestamps.
    #[must_use]
    pub fn without_timestamps(self) -> (b: Self)
        requires
            self.wf(),
        ensures
            b.wf(),
            b.options_spec() == (NonBlockingOptions {
                timestamps: Timestamps::Disabled,
                ..self.options_spec()
            }),
    {
        let mut b = self;
        b.options.timestamps = Timestamps::Disabled;
        b
    }

    /// Timestamps in UTC, ending in a literal `Z`.
    #[must_use]
    pub fn with_utc_timestamps(self) -> (b: Self)
        requires
            self.wf(),
        ensures
            b.wf(),
            b.options_spec() == (NonBlockingOptions {
                timestamps: Timestamps::Utc,
                ..self.options_spec()
            }),
    {
        let mut b = self;
        b.options.timestamps = Timestamps::Utc;
        b
    }

    /// Timestamps shifted to a fixed UTC offset, given in seconds, ending in
    /// an explicit numeric marker.
    #[must_use]
    pub fn with_utc_offset(self, offset_seconds: i32) -> (b: Self)
        requires
            self.wf(),
            MIN_UTC_OFFSET_SECONDS <= offset_seconds <= MAX_UTC_OFFSET_SECONDS,
        ensures
            b.wf(),
            b.options_spec() == (NonBlockingOptions {
                timestamps: Timestamps::UtcOffset(offset_seconds),
                ..self.options_spec()
            }),
    {
        let mut b = self;
        b.options.timestamps = Timestamps::UtcOffset(offset_seconds);
        b
    }

    /// Sets the capacity of the hand-off queue.  A capacity of zero is
    /// rejected at construction, before any message could be enqueued.
    #[must_use]
    pub fn with_channel_size(self, size: usize) -> (b: Self)
        requires
            self.wf(),
        ensures
            b.wf(),
            b.options_spec() == (NonBlockingOptions {
                channel_size: size,
                ..self.options_spec()
            }),
    {
        let mut b = self;
        b.options.channel_size = size;
        b
    }

    /// Selects the destination stream the writer will own.
    #[must_use]
    pub fn with_destination(self, destination: Destination) -> (b: Self)
        requires
            self.wf(),
        ensures
            b.wf(),
            b.options_spec() == (NonBlockingOptions { destination, ..self.options_spec() }),
    {
        let mut b = self;
        b.options.destination = destination;
        b
    }

    /// Hands out the configuration built so far, for a caller that runs its
    /// own pipeline around the verified core.
    pub fn build_options(self) -> (o: NonBlockingOptions)
        ensures
            o == self.options_spec(),
            self.wf() ==> o.wf(),
    {
        self.options
    }

    /// Builds the logger and installs it into the registry.  Construction
    /// fails on a zero channel size before anything is enqueued, and on a
    /// registry that already holds a logger; otherwise the logger starts
    /// running with an empty queue of the configured capacity.
    pub fn init(self, registry: &mut LoggerRegistry) -> (r: Result<
        NonBlockingLogger,
        NonBlockingLoggerError,
    >)
        requires
            self.wf(),
        ensures
            self.options_spec().channel_size == 0 ==> (r matches Err(e) && e
                is InvalidConfiguration) && *final(registry) == *old(registry),
            self.options_spec().channel_size > 0 && old(registry).is_installed() ==> (r matches Err(e)
                && e is LoggerAlreadySet) && *final(registry) == *old(registry),
            self.options_spec().channel_size > 0 && !old(registry).is_installed()
                ==> final(registry).is_installed() && (r matches Ok(lg) && lg.wf()
                && lg.options_spec() == self.options_spec() && lg.running() && lg.queue_contents()
                == Seq::<WorkerMessage>::empty() && lg.queue_cap()
                == self.options_spec().channel_size as int),
    {
        if self.options.channel_size == 0 {
            return Err(NonBlockingLoggerError::InvalidConfiguration);
        }
        match registry.install() {
            Err(e) => Err(e),
            Ok(()) => {
                let queue = match HandoffQueue::new(self.options.channel_size) {
                    Ok(q) => q,
                    Err(e) => {
                        return Err(e);
                    },
                };
                Ok(
                    NonBlockingLogger {
                        options: self.options,
                        queue,
                        running: true,
                        next_flush_id: 0,
                    },
                )
            },
        }
    }
}

impl Default for NonBlockingLoggerBuilder {
    /// The same configuration as `new`.
    fn default() -> (b: Self)
        ensures
            b.wf(),
    {
        NonBlockingLoggerBuilder::new()
    }
}

/// The process-wide singleton slot for the active logger, modeled as an
/// explicit object: installation succeeds once and fails ever after.
pub struct LoggerRegistry {
    installed: bool,
}

impl LoggerRegistry {
    /// Whether a logger has been installed.
    pub closed spec fn is_installed(self) -> bool {
        self.installed
    }

    /// An empty registry with no logger installed.
    pub fn new() -> (r: LoggerRegistry)
        ensures
            !r.is_installed(),
    {
        LoggerRegistry { installed: false }
    }

    /// Claims the singleton slot: the first call succeeds, every later call
    /// fails, and the slot stays taken.
    pub fn install(&mut self) -> (r: Result<(), NonBlockingLoggerError>)
        ensures
            final(self).is_installed(),
            !old(self).is_installed() ==> r is Ok,
            old(self).is_installed() ==> (r matches Err(e) && e is LoggerAlreadySet) && *final(self) == *old(self),
    {
        if self.installed {
            Err(NonBlockingLoggerError::LoggerAlreadySet)
        } else {
            self.installed = true;
            Ok(())
        }
    }
}

/// The outcome of one `log` call.
#[derive(Clone, Copy, Debug, PartialEq, Eq, Structural)]
pub enum LogOutcome {
    /// The record passed the filter and its line was enqueued.
    Enqueued,
    /// The record was rejected by the level lookup before any formatting.
    Filtered,
    /// The queue is full; the record was not enqueued.  (The threaded
    /// pipeline blocks the producer here instead.)
    QueueFull,
    /// The logger was shut down; nothing is accepted any more.
    Closed,
}

/// The outcome of asking for a flush barrier.
#[derive(Clone, Copy, Debug, PartialEq, Eq, Structural)]
pub enum FlushOutcome {
    /// The barrier was enqueued; the value identifies the completion handle
    /// that the writer will signal once every earlier byte is out.
    Requested(u64),
    /// The queue is full; the threaded pipeline blocks here until space
    /// frees up.
    QueueFull,
    /// The logger was shut down; the consumer is gone.
    Closed,
}

/// The logger facade: the public entry point that filters, renders, and
/// enqueues records, answers flush requests, and shuts down exactly once.
pub struct NonBlockingLogger {
    options: NonBlockingOptions,
    queue: HandoffQueue,
    running: bool,
    next_flush_id: u64,
}

impl NonBlockingLogger {
    /// This logger's configuration.
    pub closed spec fn options_spec(self) -> NonBlockingOptions {
        self.options
    }

    /// Whether the logger still accepts records: true from construction
    /// until the one successful shutdown.
    pub closed spec fn running(self) -> bool {
        self.running
    }

    /// The messages now pending on the hand-off queue, oldest first.
    pub closed spec fn queue_contents(self) -> Seq<WorkerMessage> {
        self.queue.contents()
    }

    /// The fixed capacity of the hand-off queue.
    pub closed spec fn queue_cap(self) -> int {
        self.queue.cap()
    }

    /// The identifier the next flush request will carry.
    pub closed spec fn flush_counter(self) -> u64 {
        self.next_flush_id
    }

    /// Well-formedness: valid configuration, and a queue of exactly the
    /// configured capacity.
    pub closed spec fn wf(self) -> bool {
        &&& self.options.wf()
        &&& self.queue.wf()
        &&& self.queue.cap() == self.options.channel_size as int
    }

    /// Whether the logger still accepts records, as an executable value.
    pub fn is_running(&self) -> (r: bool)
        ensures
            r == self.running(),
    {
        self.running
    }

    /// The effective maximum level: the greatest filter among the default
    /// and all module overrides.  A record above this level can never be
    /// accepted, whatever its target, so it is the coarse global filter.
    pub fn max_level(&self) -> (r: LevelFilter)
        ensures
            r == overall_max_filter(
                self.options_spec().module_levels@,
                self.options_spec().default_level,
            ),
    {
        compute_max_filter(&self.options.module_levels, self.options.default_level)
    }

    /// Whether a record of this level and target passes the filter in force
    /// for the target: the most specific matching override, or the default.
    pub fn enabled(&self, level: Level, target: &[u8]) -> (r: bool)
        ensures
            r == level_passes(
                level,
                effective_filter(
                    self.options_spec().module_levels@,
                    self.options_spec().default_level,
                    target@,
                ),
            ),
    {
        passes(level, lookup_filter(&self.options.module_levels, self.options.default_level, target))
    }

    /// Whether `log` would enqueue a record of this level and target.
    pub open spec fn accepts(self, level: Level, target: Seq<u8>) -> bool {
        self.running() && level_passes(
            level,
            effective_filter(
                self.options_spec().module_levels@,
                self.options_spec().default_level,
                target,
            ),
        )
    }

    /// Takes in one record, using the injected clock reading `ts` for the
    /// timestamp field: when the logger is running, the record passes the
    /// level lookup, and the queue has room, exactly one log message holding
    /// the rendered line is appended to the queue; otherwise nothing
    /// changes and the outcome says why.
    pub fn log_at(
        &mut self,
        ts: &ClockParts,
        level: Level,
        target: &[u8],
        thread: &[u8],
        message: &[u8],
    ) -> (outcome: LogOutcome)
        requires
            old(self).wf(),
            clock_parts_valid(*ts),
        ensures
            final(self).wf(),
            final(self).options_spec() == old(self).options_spec(),
            final(self).running() == old(self).running(),
            final(self).queue_cap() == old(self).queue_cap(),
            final(self).flush_counter() == old(self).flush_counter(),
            !old(self).running() ==> outcome == LogOutcome::Closed && final(self).queue_contents()
                == old(self).queue_contents(),
            old(self).running() && !old(self).accepts(level, target@) ==> outcome
                == LogOutcome::Filtered && final(self).queue_contents() == old(self).queue_contents(),
            old(self).accepts(level, target@) && old(self).queue_contents().len() >= old(self).queue_cap() ==> outcome == LogOutcome::QueueFull && final(self).queue_contents()
                == old(self).queue_contents(),
            old(self).accepts(level, target@) && old(self).queue_contents().len() < old(self).queue_cap() ==> (outcome == LogOutcome::Enqueued && final(self).queue_contents().len()
                == old(self).queue_contents().len() + 1 && final(self).queue_contents().drop_last()
                == old(self).queue_contents() && final(self).queue_contents().last() is Log
                && exists|ls: Seq<u8>|
                #[trigger] label_ok(ls, level, old(self).options_spec().colors) && final(self).queue_contents().last().payload() == rendered_line_spec(
                    old(self).options_spec(),
                    ls,
                    *ts,
                    target@,
                    thread@,
                    message@,
                )),
    {
        if !self.running {
            return LogOutcome::Closed;
        }
        if !self.enabled(level, target) {
            return LogOutcome::Filtered;
        }
        let line = self.options.render_line_at(ts, level, target, thread, message);
        let ghost gline = line@;
        match self.queue.try_enqueue(WorkerMessage::Log(line)) {
            Ok(()) => {
                proof {
                    let contents = self.queue.contents();
                    assert(contents.drop_last() =~= old(self).queue_contents());
                    assert(contents.last().payload() == gline);
                }
                LogOutcome::Enqueued
            },
            Err(_) => LogOutcome::QueueFull,
        }
    }

    /// Takes in one record, reading the clock as the timestamp mode asks.
    /// Behaves as `log_at` for some valid clock reading.
    pub fn log(&mut self, level: Level, target: &[u8], thread: &[u8], message: &[u8]) -> (outcome:
        LogOutcome)
        requires
            old(self).wf(),
        ensures
            final(self).wf(),
            final(self).options_spec() == old(self).options_spec(),
            final(self).running() == old(self).running(),
            final(self).queue_cap() == old(self).queue_cap(),
            final(self).flush_counter() == old(self).flush_counter(),
            !old(self).running() ==> outcome == LogOutcome::Closed && final(self).queue_contents()
                == old(self).queue_contents(),
            old(self).running() && !old(self).accepts(level, target@) ==> outcome
                == LogOutcome::Filtered && final(self).queue_contents() == old(self).queue_contents(),
            old(self).accepts(level, target@) && old(self).queue_contents().len() >= old(self).queue_cap() ==> outcome == LogOutcome::QueueFull && final(self).queue_contents()
                == old(self).queue_contents(),
            old(self).accepts(level, target@) && old(self).queue_contents().len() < old(self).queue_cap() ==> (outcome == LogOutcome::Enqueued && final(self).queue_contents().len()
                == old(self).queue_contents().len() + 1 && final(self).queue_contents().drop_last()
                == old(self).queue_contents() && final(self).queue_contents().last() is Log
                && exists|ts: ClockParts, ls: Seq<u8>|
                #![trigger rendered_line_spec(old(self).options_spec(), ls, ts, target@, thread@, message@)]
                clock_parts_valid(ts) && label_ok(ls, level, old(self).options_spec().colors)
                    && final(self).queue_contents().last().payload() == rendered_line_spec(
                    old(self).options_spec(),
                    ls,
                    ts,
                    target@,
                    thread@,
                    message@,
                )),
    {
        let ts: ClockParts = match self.options.timestamps {
            Timestamps::Disabled => clock_now_utc(),
            Timestamps::Utc => clock_now_utc(),
            Timestamps::UtcOffset(s) => clock_now_at_offset(s),
        };
        self.log_at(&ts, level, target, thread, message)
    }

    /// Asks for a flush barrier: when the logger is running and the queue
    /// has room, exactly one flush message carrying a fresh handle
    /// identifier is appended after everything already enqueued.  The writer
    /// answers it only after every earlier byte has reached the destination.
    pub fn flush_request(&mut self) -> (outcome: FlushOutcome)
        requires
            old(self).wf(),
        ensures
            final(self).wf(),
            final(self).options_spec() == old(self).options_spec(),
            final(self).running() == old(self).running(),
            final(self).queue_cap() == old(self).queue_cap(),
            !old(self).running() ==> outcome == FlushOutcome::Closed && final(self).queue_contents() == old(self).queue_contents() && final(self).flush_counter() == old(self).flush_counter(),
            old(self).running() && old(self).queue_contents().len() >= old(self).queue_cap()
                ==> outcome == FlushOutcome::QueueFull && final(self).queue_contents() == old(self).queue_contents() && final(self).flush_counter() == old(self).flush_counter(),
            old(self).running() && old(self).queue_contents().len() < old(self).queue_cap()
                ==> (outcome == FlushOutcome::Requested(old(self).flush_counter()) && final(self).queue_contents() == old(self).queue_contents().push(
                WorkerMessage::Flush(old(self).flush_counter()),
            ) && final(self).flush_counter() as int == (old(self).flush_counter() as int + 1) % (
            u64::MAX as int + 1)),
    {
        if !self.running {
            return FlushOutcome::Closed;
        }
        let id = self.next_flush_id;
        match self.queue.try_enqueue(WorkerMessage::Flush(id)) {
            Ok(()) => {
                self.next_flush_id = self.next_flush_id.wrapping_add(1);
                FlushOutcome::Requested(id)
            },
            Err(_) => FlushOutcome::QueueFull,
        }
    }

    /// Lets the writer drain this logger's queue to quiescence against
    /// `sink`, exactly as the background writer drains it against the
    /// destination stream: every pending payload reaches `sink` in enqueue
    /// order, and the answered flush handles come back in enqueue order.
    pub fn drain_into(&mut self, worker: &mut LogWorker, sink: &mut Vec<u8>) -> (acks: Vec<u64>)
        requires
            old(self).wf(),
        ensures
            final(self).wf(),
            final(self).options_spec() == old(self).options_spec(),
            final(self).running() == old(self).running(),
            final(self).queue_cap() == old(self).queue_cap(),
            final(self).flush_counter() == old(self).flush_counter(),
            final(self).queue_contents() == Seq::<WorkerMessage>::empty(),
            final(worker).pending_bytes() == Seq::<u8>::empty(),
            final(sink)@ == old(sink)@ + old(worker).pending_bytes() + concat_payloads(
                old(self).queue_contents(),
            ),
            acks@ == flush_ids(old(self).queue_contents()),
    {
        worker.run(&mut self.queue, sink)
    }

    /// Shuts the logger down: the running flag goes from on to off exactly
    /// once.  The first call succeeds; every later call fails with
    /// `AlreadyShutdown` and changes nothing.  Messages already on the queue
    /// stay there for the writer to drain.
    pub fn shutdown(&mut self) -> (r: Result<(), NonBlockingLoggerError>)
        requires
            old(self).wf(),
        ensures
            final(self).wf(),
            final(self).options_spec() == old(self).options_spec(),
            final(self).queue_contents() == old(self).queue_contents(),
            final(self).queue_cap() == old(self).queue_cap(),
            final(self).flush_counter() == old(self).flush_counter(),
            !final(self).running(),
            old(self).running() ==> r is Ok,
            !old(self).running() ==> (r matches Err(e) && e is AlreadyShutdown),
    {
        if self.running {
            self.running = false;
            Ok(())
        } else {
            Err(NonBlockingLoggerError::AlreadyShutdown)
        }
    }
}

} // verus!
