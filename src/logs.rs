//! A bounded buffer of the most recent log lines.

use std::collections::VecDeque;

use vstd::prelude::*;

verus! {

/// Log lines, oldest first; pushing onto a full buffer drops the oldest line.
#[derive(Debug)]
pub struct RingBuffer {
    buffer: VecDeque<String>,
    capacity: usize,
}

impl RingBuffer {
    /// The lines held, oldest first.
    pub closed spec fn spec_lines(&self) -> Seq<String> {
        self.buffer@
    }

    /// How many lines the buffer keeps.
    pub closed spec fn spec_capacity(&self) -> usize {
        self.capacity
    }

    /// An empty buffer keeping up to `capacity` lines.
    pub fn new(capacity: usize) -> (r: RingBuffer)
        ensures
            r.spec_lines().len() == 0,
            r.spec_capacity() == capacity,
    {
        RingBuffer { buffer: VecDeque::new(), capacity }
    }

    /// Append `line`, first dropping the oldest line if the buffer is full.
    pub fn push(&mut self, line: String)
        ensures
            final(self).spec_capacity() == old(self).spec_capacity(),
            final(self).spec_lines() == if old(self).spec_lines().len() >= old(
                self,
            ).spec_capacity() && old(self).spec_lines().len() > 0 {
                old(self).spec_lines().drop_first().push(line)
            } else {
                old(self).spec_lines().push(line)
            },
    {
        if self.buffer.len() >= self.capacity {
            self.buffer.pop_front();
        }
        self.buffer.push_back(line);
    }

    /// The lines held, oldest first.
    pub fn get_logs(&self) -> (r: Vec<String>)
        ensures
            r@ == self.spec_lines(),
    {
        let mut out: Vec<String> = Vec::new();
        let mut i: usize = 0;
        while i < self.buffer.len()
            invariant
                i <= self.buffer@.len(),
                out@ == self.buffer@.take(i as int),
            decreases self.buffer@.len() - i,
        {
            out.push(self.buffer[i].clone());
            assert(self.buffer@.take(i + 1) =~= self.buffer@.take(i as int).push(self.buffer@[i as int]));
            i = i + 1;
        }
        assert(self.buffer@.take(i as int) =~= self.buffer@);
        out
    }
}

} // verus!
