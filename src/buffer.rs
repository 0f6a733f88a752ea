//! Bounded history of a session's output: keeps the most recent bytes, at
//! most as many as its capacity.

use vstd::prelude::*;

verus! {

/// The last `n` items of `s`, or all of `s` where it has fewer.
pub open spec fn last_n(s: Seq<u8>, n: nat) -> Seq<u8> {
    if s.len() <= n {
        s
    } else {
        s.subrange(s.len() - n, s.len() as int)
    }
}

/// Keeping the last `n` after one more item: drop the oldest kept item
/// where the window was full, then add the new one.
proof fn lemma_last_n_push(s: Seq<u8>, x: u8, n: nat)
    requires
        n > 0,
    ensures
        last_n(s.push(x), n) == (if last_n(s, n).len() >= n {
            last_n(s, n).remove(0)
        } else {
            last_n(s, n)
        }).push(x),
{
    let k = last_n(s, n);
    if s.len() < n {
        assert(last_n(s.push(x), n) =~= k.push(x));
    } else {
        assert(last_n(s.push(x), n) =~= k.remove(0).push(x));
    }
}

/// Output history that retains the most recent `capacity` bytes.
pub struct RingBuffer {
    capacity: usize,
    data: Vec<u8>,
}

impl View for RingBuffer {
    type V = Seq<u8>;

    closed spec fn view(&self) -> Seq<u8> {
        self.data@
    }
}

impl RingBuffer {
    /// Largest number of bytes retained.
    pub closed spec fn spec_capacity(&self) -> nat {
        self.capacity as nat
    }

    /// The retained bytes never exceed the capacity.
    pub closed spec fn wf(&self) -> bool {
        self.data@.len() <= self.capacity
    }

    /// An empty history that keeps at most `capacity` bytes.
    pub fn new(capacity: usize) -> (r: RingBuffer)
        ensures
            r.wf(),
            r@.len() == 0,
            r.spec_capacity() == capacity,
    {
        RingBuffer { capacity, data: Vec::with_capacity(capacity) }
    }

    /// Largest number of bytes retained.
    pub fn capacity(&self) -> (r: usize)
        ensures
            r == self.spec_capacity(),
    {
        self.capacity
    }

    /// Appends `bytes`; what is retained is the last `capacity` bytes of
    /// everything pushed since the last clear.
    pub fn push(&mut self, bytes: &[u8])
        requires
            old(self).wf(),
        ensures
            final(self).wf(),
            final(self).spec_capacity() == old(self).spec_capacity(),
            final(self)@ == last_n(old(self)@ + bytes@, old(self).spec_capacity()),
    {
        let ghost start = self.data@;
        let mut i: usize = 0;
        while i < bytes.len()
            invariant
                i <= bytes@.len(),
                self.capacity == old(self).capacity,
                start == old(self)@,
                self.wf(),
                self.data@ == last_n(start + bytes@.take(i as int), self.capacity as nat),
            decreases bytes@.len() - i,
        {
            let b = bytes[i];
            proof {
                assert(start + bytes@.take(i + 1) =~= (start + bytes@.take(i as int)).push(b));
                if self.capacity > 0 {
                    lemma_last_n_push(start + bytes@.take(i as int), b, self.capacity as nat);
                } else {
                    assert(last_n(start + bytes@.take(i + 1), 0) =~= Seq::<u8>::empty());
                }
            }
            if self.data.len() >= self.capacity && self.data.len() > 0 {
                self.data.remove(0);
            }
            if self.capacity > 0 {
                self.data.push(b);
            }
            i = i + 1;
        }
        assert(bytes@.take(i as int) =~= bytes@);
    }

    /// The retained bytes, oldest first.
    pub fn as_slice(&self) -> (r: &[u8])
        ensures
            r@ == self@,
    {
        self.data.as_slice()
    }

    /// Forgets every retained byte; the capacity stays.
    pub fn clear(&mut self)
        ensures
            final(self).wf(),
            final(self)@.len() == 0,
            final(self).spec_capacity() == old(self).spec_capacity(),
    {
        self.data.clear();
    }
}

} // verus!
