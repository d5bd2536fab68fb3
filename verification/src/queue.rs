//! Bounded hand-off buffer between the row producer and the response
//! writer.
//!
//! One export runs as two stages: a producer that fetches and renders
//! rows, and a consumer that writes lines to the HTTP response. They
//! meet at this single-producer, single-consumer buffer. Its capacity
//! is a hard bound — a full buffer refuses the line and hands it back,
//! so a stalled consumer throttles the producer instead of growing
//! memory — and it is first-in first-out, so the hand-off introduces no
//! reordering: lines leave in exactly the order they entered.

use vstd::prelude::*;

verus! {

/// A bounded first-in-first-out buffer of CSV lines.
pub struct LineBuffer {
    lines: Vec<String>,
    capacity: usize,
}

impl LineBuffer {
    /// The pending lines, oldest first.
    pub closed spec fn view(&self) -> Seq<Seq<char>> {
        self.lines.deep_view()
    }

    /// The capacity the buffer was created with.
    pub closed spec fn cap(&self) -> int {
        self.capacity as int
    }

    pub open spec fn wf(&self) -> bool {
        &&& self.cap() >= 1
        &&& self@.len() <= self.cap()
    }

    /// An empty buffer that will never hold more than `capacity` lines.
    pub fn new(capacity: usize) -> (r: LineBuffer)
        requires
            capacity >= 1,
        ensures
            r.wf(),
            r@ == Seq::<Seq<char>>::empty(),
            r.cap() == capacity,
    {
        let r = LineBuffer { lines: Vec::new(), capacity };
        proof {
            assert(r@ =~= Seq::<Seq<char>>::empty());
        }
        r
    }

    pub fn len(&self) -> (r: usize)
        ensures
            r == self@.len(),
    {
        self.lines.len()
    }

    pub fn is_empty(&self) -> (r: bool)
        ensures
            r == (self@.len() == 0),
    {
        self.lines.len() == 0
    }

    pub fn is_full(&self) -> (r: bool)
        ensures
            r == (self@.len() == self.cap()),
    {
        self.lines.len() == self.capacity
    }

    /// Offer a line to the buffer. A full buffer changes nothing and
    /// hands the line back — the producer must wait; otherwise the line
    /// joins the back of the queue.
    pub fn push(&mut self, line: String) -> (r: Result<(), String>)
        requires
            old(self).wf(),
        ensures
            final(self).wf(),
            final(self).cap() == old(self).cap(),
            match r {
                Ok(()) => {
                    &&& old(self)@.len() < old(self).cap()
                    &&& final(self)@ == old(self)@.push(line@)
                },
                Err(back) => {
                    &&& old(self)@.len() == old(self).cap()
                    &&& final(self)@ == old(self)@
                    &&& back == line
                },
            },
    {
        if self.lines.len() == self.capacity {
            return Err(line);
        }
        let ghost before = self.lines.deep_view();
        let ghost pushed = line@;
        self.lines.push(line);
        proof {
            assert(self.lines.deep_view() =~= before.push(pushed));
        }
        Ok(())
    }

    /// Take the oldest pending line, or nothing when the buffer is
    /// empty. Lines leave in the order they entered.
    pub fn pop(&mut self) -> (r: Option<String>)
        requires
            old(self).wf(),
        ensures
            final(self).wf(),
            final(self).cap() == old(self).cap(),
            match r {
                Some(line) => {
                    &&& old(self)@.len() > 0
                    &&& line@ == old(self)@[0]
                    &&& final(self)@ == old(self)@.drop_first()
                },
                None => {
                    &&& old(self)@.len() == 0
                    &&& final(self)@ == old(self)@
                },
            },
    {
        if self.lines.len() == 0 {
            return None;
        }
        let ghost before = self.lines.deep_view();
        let line = self.lines.remove(0);
        proof {
            assert(self.lines.deep_view() =~= before.drop_first());
        }
        Some(line)
    }
}

} // verus!
