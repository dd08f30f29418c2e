//! Rolling window over the newest samples, as shown by the waveform scope.
//!
//! The audio thread hands over batches of decimated samples; the UI appends
//! them here each frame and draws the window oldest → newest.

use std::collections::VecDeque;
use vstd::prelude::*;
use vstd::std_specs::vecdeque::*;

verus! {

/// The window after appending `x`: the oldest entry leaves once the window
/// holds `capacity` entries.
pub open spec fn window_push<T>(s: Seq<T>, x: T, capacity: nat) -> Seq<T> {
    let kept = if s.len() >= capacity && s.len() > 0 {
        s.drop_first()
    } else {
        s
    };
    kept.push(x)
}

/// The window after appending every element of `xs` in order.
pub open spec fn window_push_all<T>(s: Seq<T>, xs: Seq<T>, capacity: nat) -> Seq<T>
    decreases xs.len(),
{
    if xs.len() == 0 {
        s
    } else {
        window_push(window_push_all(s, xs.drop_last(), capacity), xs.last(), capacity)
    }
}

/// The newest `capacity` elements of `t`, oldest first.
pub open spec fn newest<T>(t: Seq<T>, capacity: nat) -> Seq<T> {
    if t.len() > capacity {
        t.skip(t.len() - capacity)
    } else {
        t
    }
}

/// Rolling sample window of a fixed capacity.
pub struct RollingBuf<T> {
    buf: VecDeque<T>,
    capacity: usize,
}

impl<T> View for RollingBuf<T> {
    type V = Seq<T>;

    closed spec fn view(&self) -> Seq<T> {
        self.buf@
    }
}

impl<T> RollingBuf<T> {
    /// Number of samples kept.
    pub closed spec fn spec_capacity(&self) -> nat {
        self.capacity as nat
    }

    /// An empty window that keeps at most `capacity` samples.
    pub fn new(capacity: usize) -> (r: Self)
        ensures
            r@ == Seq::<T>::empty(),
            r.spec_capacity() == capacity,
    {
        RollingBuf { buf: VecDeque::new(), capacity }
    }

    /// Append one sample, dropping the oldest once the window is full.
    pub fn push(&mut self, x: T)
        ensures
            final(self)@ == window_push(old(self)@, x, old(self).spec_capacity()),
            final(self).spec_capacity() == old(self).spec_capacity(),
    {
        if self.buf.len() >= self.capacity {
            let _ = self.buf.pop_front();
        }
        self.buf.push_back(x);
        proof {
            assert(self.buf@ =~= window_push(old(self)@, x, old(self).spec_capacity()));
        }
    }

    /// Number of samples held.
    pub fn len(&self) -> (r: usize)
        ensures
            r == self@.len(),
    {
        self.buf.len()
    }

    /// `true` when no sample is held.
    pub fn is_empty(&self) -> (r: bool)
        ensures
            r == (self@.len() == 0),
    {
        self.buf.len() == 0
    }

    /// The sample at `i`, counting from the oldest.
    pub fn get(&self, i: usize) -> (r: &T)
        requires
            i < self@.len(),
        ensures
            *r == self@[i as int],
    {
        &self.buf[i]
    }
}

impl<T: Copy> RollingBuf<T> {
    /// Append a batch of samples in order.
    pub fn extend(&mut self, batch: &[T])
        ensures
            final(self)@ == window_push_all(old(self)@, batch@, old(self).spec_capacity()),
            final(self).spec_capacity() == old(self).spec_capacity(),
    {
        let n = batch.len();
        let mut i: usize = 0;
        while i < n
            invariant
                n == batch@.len(),
                i <= n,
                self@ == window_push_all(old(self)@, batch@.take(i as int), old(self).spec_capacity()),
                self.spec_capacity() == old(self).spec_capacity(),
            decreases n - i,
        {
            proof {
                assert(batch@.take(i as int + 1).drop_last() == batch@.take(i as int));
            }
            self.push(batch[i]);
            i = i + 1;
        }
        proof {
            assert(batch@.take(n as int) == batch@);
        }
    }
}

/// Whatever is appended, the window holds the newest `capacity` samples,
/// oldest first, once it started from a window within capacity.
pub proof fn lemma_window_keeps_newest<T>(s: Seq<T>, xs: Seq<T>, capacity: nat)
    requires
        1 <= capacity,
        s.len() <= capacity,
    ensures
        window_push_all(s, xs, capacity) == newest(s + xs, capacity),
        window_push_all(s, xs, capacity).len() <= capacity,
    decreases xs.len(),
{
    if xs.len() > 0 {
        let init = xs.drop_last();
        let x = xs.last();
        lemma_window_keeps_newest(s, init, capacity);
        let t0 = s + init;
        let t = s + xs;
        assert(t == t0.push(x));
        let w = newest(t0, capacity);
        if t0.len() > capacity {
            assert(window_push(w, x, capacity) =~= t.skip(t.len() - capacity));
        } else if t0.len() == capacity {
            assert(window_push(w, x, capacity) =~= t.skip(t.len() - capacity));
        } else {
            assert(window_push(w, x, capacity) =~= t);
        }
    } else {
        assert(s + xs =~= s);
    }
}

} // verus!
