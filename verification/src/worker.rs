//! The writer task's logic.
//!
//! The writer is the sole consumer of the hand-off queue and the only owner
//! of the destination stream.  Its loop batches small payloads, writes
//! oversized payloads immediately, and answers flush requests only after
//! everything enqueued before them has been written.  The retry-write state
//! machine absorbs partial writes and would-block conditions; the loop that
//! performs the actual system calls feeds it one [`WriteOutcome`] per
//! attempt and follows the [`RetryAction`] it returns.

use vstd::prelude::*;

use crate::errors::NonBlockingLoggerError;
use crate::line::push_all;
use crate::queue::{HandoffQueue, WorkerMessage};

verus! {

/// Log payloads of at least this many bytes bypass batching and are written
/// immediately, so that one huge record cannot grow the batch buffer without
/// bound.
pub const BATCH_THRESHOLD: usize = 1280;

/// What one attempt to push bytes to the destination reported.
pub enum WriteOutcome {
    /// The destination accepted this many bytes of the slice handed to it.
    Accepted(usize),
    /// The destination is temporarily unable to accept bytes.
    WouldBlock,
    /// A hard I/O error; retrying is pointless.
    Fatal,
}

/// What the retry loop must do after one attempt.
pub enum RetryAction {
    /// Progress was made; hand the destination the remaining bytes next.
    Advanced,
    /// Nothing was accepted; block until the destination reports itself
    /// writable, then retry the same remaining bytes.
    AwaitWritable,
    /// Give up and report an I/O error; the bytes already accepted stay
    /// written, and none are retried.
    Abort,
}

/// The cursor of the new write position after `n` bytes were accepted:
/// advanced by `n`, never past the end of the buffer.
pub open spec fn next_cursor(written: int, total: int, n: int) -> int {
    if written + n > total {
        total
    } else {
        written + n
    }
}

/// The cursor of one retry-write: how many of the buffer's bytes the
/// destination has accepted so far.  The cursor only ever advances, by
/// exactly the number of bytes accepted, so no byte is skipped or written
/// twice.
pub struct RetryProgress {
    written: usize,
    total: usize,
}

impl RetryProgress {
    /// How many bytes have been accepted.
    pub closed spec fn written_spec(self) -> int {
        self.written as int
    }

    /// How many bytes the whole buffer holds.
    pub closed spec fn total_spec(self) -> int {
        self.total as int
    }

    /// The cursor never passes the end of the buffer.
    pub open spec fn wf(self) -> bool {
        0 <= self.written_spec() <= self.total_spec()
    }

    /// A fresh cursor for a buffer of `total` bytes.
    pub fn new(total: usize) -> (r: RetryProgress)
        ensures
            r.wf(),
            r.written_spec() == 0,
            r.total_spec() == total as int,
    {
        RetryProgress { written: 0, total }
    }

    /// How many bytes have been accepted, as an executable value.
    pub fn written(&self) -> (n: usize)
        ensures
            n as int == self.written_spec(),
    {
        self.written
    }

    /// How many bytes are still to be written.
    pub fn remaining(&self) -> (n: usize)
        requires
            self.wf(),
        ensures
            n as int == self.total_spec() - self.written_spec(),
    {
        self.total - self.written
    }

    /// Whether every byte has been accepted.
    pub fn done(&self) -> (r: bool)
        ensures
            r == (self.written_spec() == self.total_spec()),
    {
        self.written == self.total
    }

    /// Takes in the outcome of one write attempt: accepted bytes advance the
    /// cursor by exactly their count; zero accepted bytes or a would-block
    /// condition leave the cursor where it is and ask the loop to wait for
    /// writability; a hard error aborts.
    pub fn on_outcome(&mut self, outcome: &WriteOutcome) -> (a: RetryAction)
        requires
            old(self).wf(),
        ensures
            final(self).wf(),
            final(self).total_spec() == old(self).total_spec(),
            match *outcome {
                WriteOutcome::Accepted(n) => {
                    &&& final(self).written_spec() == next_cursor(
                        old(self).written_spec(),
                        old(self).total_spec(),
                        n as int,
                    )
                    &&& (n > 0 ==> a is Advanced)
                    &&& (n == 0 ==> a is AwaitWritable)
                },
                WriteOutcome::WouldBlock => final(self).written_spec() == old(self).written_spec()
                    && a is AwaitWritable,
                WriteOutcome::Fatal => final(self).written_spec() == old(self).written_spec()
                    && a is Abort,
            },
    {
        match outcome {
            WriteOutcome::Accepted(n) => {
                if *n == 0 {
                    RetryAction::AwaitWritable
                } else {
                    let rem = self.total - self.written;
                    if *n > rem {
                        self.written = self.total;
                    } else {
                        self.written = self.written + *n;
                    }
                    RetryAction::Advanced
                }
            },
            WriteOutcome::WouldBlock => RetryAction::AwaitWritable,
            WriteOutcome::Fatal => RetryAction::Abort,
        }
    }
}

/// The final cursor and failure flag of a retry-write over `buf` that starts
/// at `written` and sees the attempt outcomes of `events`, in order.  The
/// write stops as soon as the buffer is complete; it fails on the first hard
/// error before that.
pub open spec fn write_trace(buf: Seq<u8>, events: Seq<WriteOutcome>, written: int) -> (int, bool)
    decreases events.len(),
{
    if written >= buf.len() {
        (written, false)
    } else if events.len() == 0 {
        (written, false)
    } else {
        match events[0] {
            WriteOutcome::Accepted(n) => write_trace(
                buf,
                events.drop_first(),
                next_cursor(written, buf.len() as int, n as int),
            ),
            WriteOutcome::WouldBlock => write_trace(buf, events.drop_first(), written),
            WriteOutcome::Fatal => (written, true),
        }
    }
}

/// The number of bytes the destination accepts over `events` in total.
pub open spec fn accepted_total(events: Seq<WriteOutcome>) -> int
    decreases events.len(),
{
    if events.len() == 0 {
        0
    } else {
        (match events[0] {
            WriteOutcome::Accepted(n) => n as int,
            WriteOutcome::WouldBlock => 0,
            WriteOutcome::Fatal => 0,
        }) + accepted_total(events.drop_first())
    }
}

/// Whether no attempt reports a hard error.
pub open spec fn no_fatal(events: Seq<WriteOutcome>) -> bool {
    forall|i: int| 0 <= i < events.len() ==> !(#[trigger] events[i] is Fatal)
}

/// Appends `src[start..end]` to `dst`.
fn push_range(dst: &mut Vec<u8>, src: &[u8], start: usize, end: usize)
    requires
        start <= end <= src@.len(),
    ensures
        final(dst)@ == old(dst)@ + src@.subrange(start as int, end as int),
{
    let mut j: usize = start;
    while j < end
        invariant
            start <= j <= end <= src@.len(),
            dst@ == old(dst)@ + src@.subrange(start as int, j as int),
        decreases end - j,
    {
        dst.push(src[j]);
        assert(old(dst)@ + src@.subrange(start as int, j as int + 1) =~= (old(dst)@
            + src@.subrange(start as int, j as int)).push(src@[j as int]));
        j += 1;
    }
}

/// The single consumer of the hand-off queue: owns the destination stream
/// exclusively and batches pending messages between writes.
pub struct LogWorker {
    pending: Vec<u8>,
}

/// What the writer must do after taking in one message: first write
/// `write_now` through the retry-write primitive (it is empty when the
/// message was only batched), then, when `ack` names a flush handle, sync
/// the destination and signal that handle exactly once.
pub struct WriterAction {
    /// Bytes that must reach the destination now, in order.
    pub write_now: Vec<u8>,
    /// The flush completion handle to signal after the write and sync.
    pub ack: Option<u64>,
}

/// One step of the writer over its model state `(bytes written, bytes
/// batched)`: a small payload is batched; an oversized payload forces the
/// batch and then itself out; a flush forces the batch out and leaves
/// nothing batched.
pub open spec fn step_state(st: (Seq<u8>, Seq<u8>), m: WorkerMessage) -> (Seq<u8>, Seq<u8>) {
    match m {
        WorkerMessage::Log(p) => {
            if p@.len() < BATCH_THRESHOLD {
                (st.0, st.1 + p@)
            } else {
                (st.0 + st.1 + p@, Seq::<u8>::empty())
            }
        },
        WorkerMessage::Flush(_) => (st.0 + st.1, Seq::<u8>::empty()),
    }
}

/// The writer's model state after taking in every message of `ms`, in
/// order, starting from `st`.
pub open spec fn drain_from(st: (Seq<u8>, Seq<u8>), ms: Seq<WorkerMessage>) -> (Seq<u8>, Seq<u8>)
    decreases ms.len(),
{
    if ms.len() == 0 {
        st
    } else {
        drain_from(step_state(st, ms[0]), ms.drop_first())
    }
}

/// The concatenation of the log payloads of `ms`, in enqueue order.
pub open spec fn concat_payloads(ms: Seq<WorkerMessage>) -> Seq<u8>
    decreases ms.len(),
{
    if ms.len() == 0 {
        Seq::<u8>::empty()
    } else {
        ms[0].payload() + concat_payloads(ms.drop_first())
    }
}

/// The identifiers of the flush requests of `ms`, in enqueue order.
pub open spec fn flush_ids(ms: Seq<WorkerMessage>) -> Seq<u64>
    decreases ms.len(),
{
    if ms.len() == 0 {
        Seq::<u64>::empty()
    } else {
        match ms[0] {
            WorkerMessage::Flush(id) => seq![id] + flush_ids(ms.drop_first()),
            WorkerMessage::Log(_) => flush_ids(ms.drop_first()),
        }
    }
}

impl LogWorker {
    /// The bytes batched but not yet handed to the destination.
    pub closed spec fn pending_bytes(self) -> Seq<u8> {
        self.pending@
    }

    /// A fresh writer with an empty batch buffer.
    pub fn new() -> (w: LogWorker)
        ensures
            w.pending_bytes() == Seq::<u8>::empty(),
    {
        LogWorker { pending: Vec::new() }
    }

    /// Takes in one message and decides what must reach the destination now:
    /// exactly one writer step of the model, plus the flush handle to signal
    /// when the message was a flush request.
    pub fn process(&mut self, m: WorkerMessage) -> (act: WriterAction)
        ensures
            act.write_now@ == step_state(
                (Seq::<u8>::empty(), old(self).pending_bytes()),
                m,
            ).0,
            final(self).pending_bytes() == step_state(
                (Seq::<u8>::empty(), old(self).pending_bytes()),
                m,
            ).1,
            act.write_now@ + final(self).pending_bytes() == old(self).pending_bytes()
                + m.payload(),
            act.ack == (match m {
                WorkerMessage::Flush(id) => Some(id),
                WorkerMessage::Log(_) => None::<u64>,
            }),
    {
        match m {
            WorkerMessage::Log(p) => {
                if p.len() < BATCH_THRESHOLD {
                    push_all(&mut self.pending, p.as_slice());
                    let act = WriterAction { write_now: Vec::new(), ack: None };
                    assert(act.write_now@ =~= Seq::<u8>::empty());
                    assert(act.write_now@ + self.pending_bytes() =~= old(self).pending_bytes()
                        + p@);
                    act
                } else {
                    let mut w: Vec<u8> = Vec::new();
                    push_all(&mut w, self.pending.as_slice());
                    self.pending.clear();
                    push_all(&mut w, p.as_slice());
                    assert(w@ =~= Seq::<u8>::empty() + old(self).pending_bytes() + p@);
                    assert(w@ + self.pending_bytes() =~= old(self).pending_bytes() + p@);
                    WriterAction { write_now: w, ack: None }
                }
            },
            WorkerMessage::Flush(id) => {
                let mut w: Vec<u8> = Vec::new();
                push_all(&mut w, self.pending.as_slice());
                self.pending.clear();
                assert(w@ =~= Seq::<u8>::empty() + old(self).pending_bytes());
                assert(w@ + self.pending_bytes() =~= old(self).pending_bytes() + m.payload());
                WriterAction { write_now: w, ack: Some(id) }
            },
        }
    }

    /// Hands out the batched bytes for writing and leaves the batch empty:
    /// the idle step at loop quiescence.
    pub fn take_pending(&mut self) -> (r: Vec<u8>)
        ensures
            r@ == old(self).pending_bytes(),
            final(self).pending_bytes() == Seq::<u8>::empty(),
    {
        let mut w: Vec<u8> = Vec::new();
        push_all(&mut w, self.pending.as_slice());
        self.pending.clear();
        assert(w@ =~= old(self).pending_bytes());
        w
    }

    /// Runs the retry-write of `buf` against a destination that reports the
    /// attempt outcomes of `events`, in order, appending every accepted byte
    /// to `sink`.  The destination receives exactly a prefix of `buf` — all
    /// of it on completion — and a hard error is surfaced as an I/O error
    /// after the bytes accepted so far.
    pub fn write_buffer(buf: &[u8], events: &Vec<WriteOutcome>, sink: &mut Vec<u8>) -> (r: Result<
        bool,
        NonBlockingLoggerError,
    >)
        ensures
            final(sink)@ == old(sink)@ + buf@.take(write_trace(buf@, events@, 0).0),
            (r is Err) == write_trace(buf@, events@, 0).1,
            r matches Ok(complete) ==> (complete <==> write_trace(buf@, events@, 0).0
                == buf@.len()),
            r matches Err(e) ==> e is IoError,
    {
        let mut progress = RetryProgress::new(buf.len());
        let mut i: usize = 0;
        assert(events@.skip(0) =~= events@);
        while i < events.len()
            invariant
                i <= events@.len(),
                progress.wf(),
                progress.total_spec() == buf@.len(),
                sink@ == old(sink)@ + buf@.take(progress.written_spec()),
                write_trace(buf@, events@, 0) == write_trace(
                    buf@,
                    events@.skip(i as int),
                    progress.written_spec(),
                ),
            decreases events@.len() - i,
        {
            let ghost rest = events@.skip(i as int);
            assert(rest[0] == events@[i as int]);
            assert(rest.drop_first() =~= events@.skip(i as int + 1));
            let before = progress.written();
            let complete_before = progress.done();
            match progress.on_outcome(&events[i]) {
                RetryAction::Advanced => {
                    let after = progress.written();
                    push_range(sink, buf, before, after);
                    assert(buf@.take(after as int) =~= buf@.take(before as int) + buf@.subrange(
                        before as int,
                        after as int,
                    ));
                    assert(sink@ =~= old(sink)@ + buf@.take(progress.written_spec()));
                },
                RetryAction::AwaitWritable => {},
                RetryAction::Abort => {
                    if !complete_before {
                        assert(write_trace(buf@, events@, 0) == (progress.written_spec(), true));
                        return Err(
                            NonBlockingLoggerError::IoError {
                                reason: "hard write error".to_owned(),
                            },
                        );
                    }
                },
            }
            i += 1;
        }
        assert(events@.skip(i as int) =~= Seq::<WriteOutcome>::empty());
        Ok(progress.done())
    }

    /// Drains the queue to quiescence: takes in every pending message in
    /// order, appends each step's bytes to `sink`, records the answered
    /// flush handles in order, and finally writes out whatever stayed
    /// batched.  The destination receives exactly the concatenation of the
    /// pending payloads, in enqueue order, after any bytes batched before.
    pub fn run(&mut self, queue: &mut HandoffQueue, sink: &mut Vec<u8>) -> (acks: Vec<u64>)
        requires
            old(queue).wf(),
        ensures
            final(queue).wf(),
            final(queue).cap() == old(queue).cap(),
            final(queue).contents() == Seq::<WorkerMessage>::empty(),
            final(self).pending_bytes() == Seq::<u8>::empty(),
            final(sink)@ == old(sink)@ + old(self).pending_bytes() + concat_payloads(
                old(queue).contents(),
            ),
            final(sink)@ == drain_from(
                (old(sink)@, old(self).pending_bytes()),
                old(queue).contents(),
            ).0 + drain_from((old(sink)@, old(self).pending_bytes()), old(queue).contents()).1,
            acks@ == flush_ids(old(queue).contents()),
    {
        let mut acks: Vec<u64> = Vec::new();
        assert(acks@ + flush_ids(queue.contents()) =~= flush_ids(queue.contents()));
        while queue.len() > 0
            invariant
                queue.wf(),
                queue.cap() == old(queue).cap(),
                sink@ + self.pending_bytes() + concat_payloads(queue.contents()) == old(sink)@
                    + old(self).pending_bytes() + concat_payloads(old(queue).contents()),
                acks@ + flush_ids(queue.contents()) == flush_ids(old(queue).contents()),
            decreases queue.contents().len(),
        {
            let ghost pre = queue.contents();
            let ghost sink_pre = sink@;
            let ghost pending_pre = self.pending_bytes();
            let m = queue.try_dequeue().unwrap();
            let ghost mm = m;
            let act = self.process(m);
            push_all(sink, act.write_now.as_slice());
            match act.ack {
                Some(id) => acks.push(id),
                None => {},
            }
            proof {
                assert(pre[0] == mm);
                assert(queue.contents() == pre.drop_first());
                assert(concat_payloads(pre) == mm.payload() + concat_payloads(pre.drop_first()));
                assert(sink@ + self.pending_bytes() =~= sink_pre + pending_pre + mm.payload());
                assert(sink@ + self.pending_bytes() + concat_payloads(queue.contents()) =~= sink_pre
                    + pending_pre + concat_payloads(pre));
                match mm {
                    WorkerMessage::Flush(id) => {
                        assert(flush_ids(pre) == seq![id] + flush_ids(pre.drop_first()));
                        assert(acks@ + flush_ids(queue.contents()) =~= flush_ids(
                            old(queue).contents(),
                        ));
                    },
                    WorkerMessage::Log(_) => {
                        assert(flush_ids(pre) == flush_ids(pre.drop_first()));
                    },
                }
            }
        }
        assert(queue.contents() =~= Seq::<WorkerMessage>::empty());
        let tail = self.take_pending();
        push_all(sink, tail.as_slice());
        assert(sink@ =~= old(sink)@ + old(self).pending_bytes() + concat_payloads(
            old(queue).contents(),
        ));
        assert(acks@ =~= flush_ids(old(queue).contents()));
        proof {
            lemma_fifo_delivery(
                (old(sink)@, old(self).pending_bytes()),
                old(queue).contents(),
            );
        }
        acks
    }
}

/// Delivery is exact and in order: after the writer takes in any sequence of
/// messages, the bytes written plus the bytes still batched are precisely
/// the bytes it started with followed by the concatenation of the messages'
/// payloads in enqueue order — nothing lost, nothing duplicated, nothing
/// reordered.
pub proof fn lemma_fifo_delivery(st: (Seq<u8>, Seq<u8>), ms: Seq<WorkerMessage>)
    ensures
        drain_from(st, ms).0 + drain_from(st, ms).1 == st.0 + st.1 + concat_payloads(ms),
    decreases ms.len(),
{
    if ms.len() == 0 {
        assert(drain_from(st, ms).0 + drain_from(st, ms).1 =~= st.0 + st.1 + concat_payloads(ms));
    } else {
        let stepped = step_state(st, ms[0]);
        lemma_fifo_delivery(stepped, ms.drop_first());
        assert(stepped.0 + stepped.1 =~= st.0 + st.1 + ms[0].payload());
        assert(stepped.0 + stepped.1 + concat_payloads(ms.drop_first()) =~= st.0 + st.1
            + concat_payloads(ms));
    }
}

/// Taking in one more message applies exactly one writer step to the
/// drained state.
pub proof fn lemma_drain_from_snoc(st: (Seq<u8>, Seq<u8>), ms: Seq<WorkerMessage>, m: WorkerMessage)
    ensures
        drain_from(st, ms.push(m)) == step_state(drain_from(st, ms), m),
    decreases ms.len(),
{
    if ms.len() == 0 {
        assert(ms.push(m)[0] == m);
        assert(ms.push(m).drop_first() =~= Seq::<WorkerMessage>::empty());
        assert(drain_from(st, ms.push(m)) == drain_from(
            step_state(st, m),
            ms.push(m).drop_first(),
        ));
        assert(drain_from(st, ms.push(m)) == step_state(st, m));
        assert(drain_from(st, ms) == st);
    } else {
        assert(ms.push(m)[0] == ms[0]);
        assert(ms.push(m).drop_first() =~= ms.drop_first().push(m));
        lemma_drain_from_snoc(step_state(st, ms[0]), ms.drop_first(), m);
        assert(drain_from(st, ms.push(m)) == drain_from(
            step_state(st, ms[0]),
            ms.drop_first().push(m),
        ));
        assert(drain_from(st, ms) == drain_from(step_state(st, ms[0]), ms.drop_first()));
    }
}

/// Flush barrier: when the writer, starting idle, takes in the messages of
/// `ms` in order and message `i` is a flush request, then at the moment that
/// flush is answered the destination has received exactly the payloads
/// enqueued strictly before it, in enqueue order, and nothing stays batched.
pub proof fn lemma_flush_barrier(ms: Seq<WorkerMessage>, i: int)
    requires
        0 <= i < ms.len(),
        ms[i] is Flush,
    ensures
        drain_from((Seq::<u8>::empty(), Seq::<u8>::empty()), ms.take(i + 1)).0 == concat_payloads(
            ms.take(i),
        ),
        drain_from((Seq::<u8>::empty(), Seq::<u8>::empty()), ms.take(i + 1)).1 == Seq::<u8>::empty(),
{
    let st0 = (Seq::<u8>::empty(), Seq::<u8>::empty());
    assert(ms.take(i + 1) =~= ms.take(i).push(ms[i]));
    lemma_drain_from_snoc(st0, ms.take(i), ms[i]);
    lemma_fifo_delivery(st0, ms.take(i));
    let drained = drain_from(st0, ms.take(i));
    assert(drained.0 + drained.1 =~= concat_payloads(ms.take(i)));
}

/// The destination never accepts a negative number of bytes in total.
proof fn lemma_accepted_total_nonneg(events: Seq<WriteOutcome>)
    ensures
        accepted_total(events) >= 0,
    decreases events.len(),
{
    if events.len() > 0 {
        lemma_accepted_total_nonneg(events.drop_first());
    }
}

/// Complete delivery under throttling: if the destination never hard-fails
/// and the chunks it accepts total at least the buffer's length, the
/// retry-write runs to completion — however small each accepted chunk is —
/// and the destination has then received every byte of the buffer exactly
/// once, in order.
pub proof fn lemma_throttled_write_completes(buf: Seq<u8>, events: Seq<WriteOutcome>, written: int)
    requires
        0 <= written <= buf.len(),
        no_fatal(events),
        written + accepted_total(events) >= buf.len(),
    ensures
        write_trace(buf, events, written).0 == buf.len(),
        write_trace(buf, events, written).1 == false,
    decreases events.len(),
{
    if written >= buf.len() {
    } else {
        let rest = events.drop_first();
        assert forall|k: int| 0 <= k < rest.len() implies !(#[trigger] rest[k] is Fatal) by {
            assert(rest[k] == events[k + 1]);
        }
        match events[0] {
            WriteOutcome::Accepted(n) => {
                lemma_accepted_total_nonneg(rest);
                lemma_throttled_write_completes(
                    buf,
                    rest,
                    next_cursor(written, buf.len() as int, n as int),
                );
            },
            WriteOutcome::WouldBlock => {
                lemma_throttled_write_completes(buf, rest, written);
            },
            WriteOutcome::Fatal => {
                assert(events[0] is Fatal);
            },
        }
    }
}

} // verus!
