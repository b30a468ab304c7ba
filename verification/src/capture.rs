//! Output capture: the bounded stdout ring kept for each running attempt,
//! and the crash-dump text flushed to disk when an attempt fails.

use circular_queue::CircularQueue;

use vstd::prelude::*;
use vstd::string::StringExecFns;

use crate::attempt::line_chars;
use crate::attempt::render_log_line;
use crate::tui_state::TuiEvent;

verus! {

#[verifier::external_type_specification]
#[verifier::external_body]
#[verifier::reject_recursive_types(T)]
pub struct ExCircularQueue<T>(CircularQueue<T>);

/// What a stdout ring holds, oldest entry first.
pub uninterp spec fn buffer_entries(q: CircularQueue<(i64, String)>) -> Seq<(i64, String)>;

/// The bound a stdout ring was created with.
pub uninterp spec fn buffer_capacity(q: CircularQueue<(i64, String)>) -> nat;

/// Relies on `CircularQueue::with_capacity`: a fresh queue is empty and
/// keeps the requested capacity.
#[verifier::external_body]
fn queue_with_capacity(capacity: usize) -> (r: CircularQueue<(i64, String)>)
    ensures
        buffer_entries(r) == Seq::<(i64, String)>::empty(),
        buffer_capacity(r) == capacity as nat,
{
    CircularQueue::with_capacity(capacity)
}

/// Relies on `CircularQueue::push`: the item becomes the newest entry and,
/// once the capacity is reached, the oldest entry is overwritten; a queue
/// of capacity zero stores nothing.
#[verifier::external_body]
fn queue_push(q: &mut CircularQueue<(i64, String)>, item: (i64, String))
    ensures
        buffer_capacity(*final(q)) == buffer_capacity(*old(q)),
        buffer_entries(*final(q)) == if buffer_capacity(*old(q)) == 0 {
            buffer_entries(*old(q))
        } else if buffer_entries(*old(q)).len() < buffer_capacity(*old(q)) {
            buffer_entries(*old(q)).push(item)
        } else {
            buffer_entries(*old(q)).drop_first().push(item)
        },
{
    let _ = q.push(item);
}

/// Relies on `CircularQueue::len`: the number of stored items.
#[verifier::external_body]
fn queue_len(q: &CircularQueue<(i64, String)>) -> (r: usize)
    ensures
        r == buffer_entries(*q).len(),
{
    q.len()
}

/// Relies on `CircularQueue::asc_iter`: the stored items, oldest first.
#[verifier::external_body]
fn queue_items(q: &CircularQueue<(i64, String)>) -> (r: Vec<(i64, String)>)
    ensures
        r@ == buffer_entries(*q),
{
    q.asc_iter().cloned().collect()
}

/// A fixed-capacity ring of `(timestamp, line)` pairs, created fresh for
/// the stdout capture of each process instance.
pub struct OutputBuffer {
    queue: CircularQueue<(i64, String)>,
}

impl View for OutputBuffer {
    type V = Seq<(i64, String)>;

    closed spec fn view(&self) -> Seq<(i64, String)> {
        buffer_entries(self.queue)
    }
}

impl OutputBuffer {
    /// The bound this ring was created with.
    pub closed spec fn capacity(&self) -> nat {
        buffer_capacity(self.queue)
    }

    /// Entries never outnumber the capacity, and every timestamp is
    /// non-negative, so a crash dump can always be rendered.
    pub open spec fn wf(&self) -> bool {
        &&& self@.len() <= self.capacity()
        &&& forall|i: int| 0 <= i < self@.len() ==> (#[trigger] self@[i]).0 >= 0
    }

    pub fn with_capacity(capacity: usize) -> (r: OutputBuffer)
        ensures
            r@ == Seq::<(i64, String)>::empty(),
            r.capacity() == capacity as nat,
            r.wf(),
    {
        OutputBuffer { queue: queue_with_capacity(capacity) }
    }

    pub fn len(&self) -> (r: usize)
        ensures
            r == self@.len(),
    {
        queue_len(&self.queue)
    }

    /// Stores one captured line. Once the ring is full, exactly the oldest
    /// entry is dropped, so the ring never outgrows its capacity.
    pub fn push(&mut self, ts: i64, line: String)
        requires
            old(self).wf(),
            ts >= 0,
        ensures
            final(self).wf(),
            final(self).capacity() == old(self).capacity(),
            final(self)@ == if old(self).capacity() == 0 {
                old(self)@
            } else if old(self)@.len() < old(self).capacity() {
                old(self)@.push((ts, line))
            } else {
                old(self)@.drop_first().push((ts, line))
            },
            final(self)@.len() <= old(self).capacity(),
    {
        queue_push(&mut self.queue, (ts, line));
        proof {
            assert forall|i: int| 0 <= i < self@.len() implies (#[trigger] self@[i]).0 >= 0 by {
                if old(self).capacity() != 0 {
                    if old(self)@.len() < old(self).capacity() {
                        if i < self@.len() - 1 {
                            assert(self@[i] == old(self)@[i]);
                        }
                    } else {
                        if i < self@.len() - 1 {
                            assert(self@[i] == old(self)@[i + 1]);
                        }
                    }
                }
            }
        }
    }

    /// Capture of one stdout line: stores `(now, line)` in the ring and
    /// yields the display event carrying the same line.
    pub fn note_line(&mut self, id: usize, now: i64, line: String) -> (e: TuiEvent)
        requires
            old(self).wf(),
            now >= 0,
        ensures
            final(self).wf(),
            final(self).capacity() == old(self).capacity(),
            final(self)@ == if old(self).capacity() == 0 {
                old(self)@
            } else if old(self)@.len() < old(self).capacity() {
                old(self)@.push((now, line))
            } else {
                old(self)@.drop_first().push((now, line))
            },
            e matches TuiEvent::NewStdoutMessage(eid, m) && eid == id && m@ == line@,
    {
        let copy = line.clone();
        self.push(now, copy);
        TuiEvent::NewStdoutMessage(id, line)
    }

    /// Renders the stdout history of a failed attempt, oldest line first;
    /// yields nothing when the buffer is empty, in which case no file is
    /// written.
    pub fn render_crash_dump(&self) -> (r: Option<String>)
        requires
            self.wf(),
        ensures
            match r {
                Some(text) => self@.len() > 0 && text@ == dump_chars(self@),
                None => self@.len() == 0,
            },
    {
        let items = queue_items(&self.queue);
        if items.len() == 0 {
            return None;
        }
        let mut out = String::new();
        let mut i: usize = 0;
        while i < items.len()
            invariant
                items@ == self@,
                self.wf(),
                0 <= i <= items@.len(),
                out@ == dump_chars(items@.take(i as int)),
            decreases items@.len() - i,
        {
            let ts = items[i].0;
            let line: &String = &items[i].1;
            proof {
                assert((self@[i as int]).0 >= 0);
                assert(items@.take(i as int + 1).drop_last() =~= items@.take(i as int));
                assert(items@.take(i as int + 1).last() == items@[i as int]);
            }
            let rendered = render_log_line(ts, line.as_str());
            out.append(rendered.as_str());
            i += 1;
        }
        proof {
            assert(items@.take(items@.len() as int) =~= items@);
        }
        Some(out)
    }
}

/// The crash-dump text: every buffered line in original order, each
/// rendered as `HH:MM:SS | text`.
pub open spec fn dump_chars(entries: Seq<(i64, String)>) -> Seq<char>
    decreases entries.len(),
{
    if entries.len() == 0 {
        Seq::empty()
    } else {
        dump_chars(entries.drop_last()) + line_chars(
            entries.last().0 as int,
            entries.last().1@,
        )
    }
}

} // verus!
