//! A bounded first-in first-out buffer of display lines.
use std::collections::VecDeque;
use vstd::prelude::*;

verus! {

/// Number of lines kept for a screen's output.
pub const OUTPUT_BUFFER_SIZE: usize = 1000;

/// The last `cap` elements of `s` (all of them when there are fewer).
pub open spec fn keep_last(s: Seq<String>, cap: nat) -> Seq<String> {
    if s.len() > cap {
        s.subrange(s.len() - cap, s.len() as int)
    } else {
        s
    }
}

/// Display lines, oldest first; once full, each new line evicts the oldest.
#[derive(Debug, Clone)]
pub struct OutputBuffer {
    lines: VecDeque<String>,
    capacity: usize,
}

impl OutputBuffer {
    pub closed spec fn view(&self) -> Seq<String> {
        self.lines@
    }

    pub closed spec fn cap(&self) -> nat {
        self.capacity as nat
    }

    pub open spec fn wf(&self) -> bool {
        self.view().len() <= self.cap() && self.cap() > 0
    }

    /// An empty buffer holding at most `capacity` lines.
    pub fn with_capacity(capacity: usize) -> (r: OutputBuffer)
        requires
            capacity > 0,
        ensures
            r.wf(),
            r.view() == Seq::<String>::empty(),
            r.cap() == capacity,
    {
        OutputBuffer { lines: VecDeque::new(), capacity }
    }

    /// An empty buffer of the standard size.
    pub fn new() -> (r: OutputBuffer)
        ensures
            r.wf(),
            r.view() == Seq::<String>::empty(),
            r.cap() == OUTPUT_BUFFER_SIZE,
    {
        OutputBuffer::with_capacity(OUTPUT_BUFFER_SIZE)
    }

    /// Append a line, evicting the oldest ones beyond the capacity.
    pub fn push_line(&mut self, line: String)
        requires
            old(self).wf(),
        ensures
            final(self).wf(),
            final(self).cap() == old(self).cap(),
            final(self).view() == keep_last(old(self).view().push(line), old(self).cap()),
    {
        let ghost all = self.lines@.push(line);
        self.lines.push_back(line);
        while self.lines.len() > self.capacity
            invariant
                self.capacity > 0,
                self.capacity == old(self).capacity,
                all.len() >= self.lines@.len(),
                self.lines@ == all.subrange(all.len() - self.lines@.len(), all.len() as int),
                self.lines@.len() <= self.capacity + 1,
                all.len() > self.capacity ==> self.lines@.len() >= self.capacity,
                all.len() <= self.capacity ==> self.lines@.len() == all.len(),
            decreases self.lines@.len(),
        {
            self.lines.pop_front();
        }
        assert(all.subrange(0, all.len() as int) =~= all);
    }

    pub fn len(&self) -> (r: usize)
        ensures
            r == self.view().len(),
    {
        self.lines.len()
    }

    /// The line at position `i`, oldest first.
    pub fn get(&self, i: usize) -> (r: &String)
        requires
            i < self.view().len(),
        ensures
            *r == self.view()[i as int],
    {
        &self.lines[i]
    }

    /// A copy of the lines, oldest first.
    pub fn to_vec(&self) -> (r: Vec<String>)
        ensures
            r@ == self.view(),
    {
        let mut r: Vec<String> = Vec::new();
        let mut i: usize = 0;
        while i < self.lines.len()
            invariant
                i <= self.lines@.len(),
                r@ == self.lines@.subrange(0, i as int),
            decreases self.lines@.len() - i,
        {
            r.push(self.lines[i].clone());
            i = i + 1;
        }
        r
    }
}

} // verus!
