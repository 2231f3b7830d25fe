use vstd::prelude::*;

verus! {

/// The last `n` elements of `s` (all of `s` when it is shorter).
pub open spec fn keep_last<T>(s: Seq<T>, n: nat) -> Seq<T> {
    if s.len() <= n {
        s
    } else {
        s.subrange(s.len() - n, s.len() as int)
    }
}

/// Fixed-capacity circular buffer. Always being overwritten; `snapshot()`
/// returns the last `capacity` items in chronological order without
/// disturbing the buffer.
pub struct CircularBuffer<T> {
    buf: Vec<T>,
    capacity: usize,
    write_pos: usize,
    filled: bool,
}

impl<T: Copy> CircularBuffer<T> {
    /// The number of items the buffer keeps.
    pub closed spec fn spec_capacity(&self) -> nat {
        self.capacity as nat
    }

    /// The slot the next item goes into.
    pub closed spec fn spec_write_pos(&self) -> nat {
        self.write_pos as nat
    }

    /// Whether the buffer has wrapped around at least once.
    pub closed spec fn spec_filled(&self) -> bool {
        self.filled
    }

    /// The buffer's internal consistency.
    pub closed spec fn wf(&self) -> bool {
        &&& self.buf@.len() == self.capacity
        &&& self.write_pos <= self.capacity
        &&& (self.capacity > 0 ==> self.write_pos < self.capacity)
        &&& (self.capacity == 0 ==> !self.filled)
    }

    /// The buffered items, oldest first.
    pub closed spec fn contents(&self) -> Seq<T> {
        if self.filled {
            self.buf@.subrange(self.write_pos as int, self.capacity as int) + self.buf@.subrange(
                0,
                self.write_pos as int,
            )
        } else {
            self.buf@.subrange(0, self.write_pos as int)
        }
    }

    /// An empty buffer of the given capacity; `fill` is the value its unused
    /// slots start with.
    pub fn new(capacity: usize, fill: T) -> (b: Self)
        ensures
            b.wf(),
            b.spec_capacity() == capacity,
            b.contents() == Seq::<T>::empty(),
    {
        let mut buf: Vec<T> = Vec::new();
        let mut i: usize = 0;
        while i < capacity
            invariant
                i <= capacity,
                buf@.len() == i,
            decreases capacity - i,
        {
            buf.push(fill);
            i += 1;
        }
        let b = Self { buf, capacity, write_pos: 0, filled: false };
        assert(b.contents() =~= Seq::<T>::empty());
        b
    }

    proof fn lemma_contents_len(&self)
        requires
            self.wf(),
        ensures
            self.contents().len() == if self.filled { self.capacity as nat } else { self.write_pos as nat },
            self.contents().len() <= self.capacity,
    {
    }

    fn push_one(&mut self, s: T)
        requires
            old(self).wf(),
            old(self).capacity > 0,
        ensures
            final(self).wf(),
            final(self).capacity == old(self).capacity,
            final(self).contents() == keep_last(old(self).contents().push(s), old(self).capacity as nat),
            final(self).write_pos == (old(self).write_pos + 1) % (old(self).capacity as int),
            final(self).filled == (old(self).filled || old(self).write_pos + 1 >= old(self).capacity),
    {
        let ghost old_c = self.contents();
        let ghost old_buf = self.buf@;
        let ghost wp = self.write_pos as int;
        let ghost cap = self.capacity as int;
        self.buf.set(self.write_pos, s);
        proof {
            if wp + 1 < cap {
                vstd::arithmetic::div_mod::lemma_small_mod((wp + 1) as nat, cap as nat);
            } else {
                vstd::arithmetic::div_mod::lemma_mod_self_0(cap);
            }
        }
        self.write_pos = (self.write_pos + 1) % self.capacity;
        if self.write_pos == 0 {
            self.filled = true;
        }
        proof {
            let nb = self.buf@;
            assert(nb == old_buf.update(wp, s));
            let target = keep_last(old_c.push(s), cap as nat);
            if !old(self).filled {
                assert(old_c =~= old_buf.subrange(0, wp));
                if wp + 1 < cap {
                    assert(self.write_pos == wp + 1);
                    assert(!self.filled);
                    assert(self.contents() =~= old_c.push(s));
                } else {
                    assert(self.write_pos == 0);
                    assert(self.contents() =~= nb.subrange(0, cap) + nb.subrange(0, 0));
                    assert(nb.subrange(0, cap) =~= old_c.push(s));
                }
                assert(target =~= old_c.push(s));
            } else {
                assert(old_c.len() == cap);
                assert(target =~= old_c.push(s).subrange(1, cap + 1));
                if wp + 1 < cap {
                    assert(self.write_pos == wp + 1);
                    assert(self.contents() =~= target);
                } else {
                    assert(self.write_pos == 0);
                    assert(self.contents() =~= target);
                }
            }
        }
    }

    /// Appends `samples`, dropping the oldest items beyond the capacity.
    pub fn push_slice(&mut self, samples: &[T])
        requires
            old(self).wf(),
            old(self).spec_capacity() > 0 || samples@.len() == 0,
        ensures
            final(self).wf(),
            final(self).spec_capacity() == old(self).spec_capacity(),
            final(self).contents() == keep_last(
                old(self).contents() + samples@,
                old(self).spec_capacity(),
            ),
            old(self).spec_capacity() > 0 ==> final(self).spec_write_pos() == (old(
                self,
            ).spec_write_pos() + samples@.len()) % old(self).spec_capacity(),
            old(self).spec_capacity() > 0 ==> final(self).spec_filled() == (old(self).spec_filled()
                || old(self).spec_write_pos() + samples@.len() >= old(self).spec_capacity()),
            samples@.len() == 0 ==> final(self).spec_write_pos() == old(self).spec_write_pos()
                && final(self).spec_filled() == old(self).spec_filled(),
    {
        let ghost start = self.contents();
        let ghost cap = self.capacity as nat;
        let ghost wp0 = self.write_pos as int;
        let ghost filled0 = self.filled;
        proof {
            if cap > 0 {
                vstd::arithmetic::div_mod::lemma_small_mod(wp0 as nat, cap);
            }
        }
        proof {
            self.lemma_contents_len();
            assert(start + samples@.subrange(0, 0) =~= start);
        }
        let n = samples.len();
        let mut i: usize = 0;
        while i < n
            invariant
                i <= n,
                n == samples@.len(),
                self.wf(),
                self.capacity as nat == cap,
                cap > 0 || n == 0,
                start.len() <= cap,
                self.contents() == keep_last(start + samples@.subrange(0, i as int), cap),
                0 <= wp0,
                cap > 0 ==> wp0 < cap,
                cap > 0 ==> self.write_pos == (wp0 + i) % (cap as int),
                cap > 0 ==> self.filled == (filled0 || wp0 + i >= cap),
                i == 0 ==> self.write_pos == wp0 && self.filled == filled0,
            decreases n - i,
        {
            let s = samples[i];
            let ghost before = self.contents();
            let ghost wpi = self.write_pos as int;
            self.push_one(s);
            proof {
                vstd::arithmetic::div_mod::lemma_add_mod_noop_right(1, wp0 + i, cap as int);
                if wp0 + i < cap {
                    vstd::arithmetic::div_mod::lemma_small_mod((wp0 + i) as nat, cap);
                }
                lemma_keep_last_append(start + samples@.subrange(0, i as int), seq![s], cap);
                assert(before.push(s) =~= before + seq![s]);
                assert((start + samples@.subrange(0, i as int)) + seq![s] =~= start + samples@.subrange(
                    0,
                    i + 1,
                ));
            }
            i += 1;
        }
        proof {
            assert(samples@.subrange(0, n as int) =~= samples@);
        }
    }

    /// Returns the buffered items in chronological order (oldest first).
    pub fn snapshot(&self) -> (out: Vec<T>)
        requires
            self.wf(),
        ensures
            out@ == self.contents(),
    {
        let mut out: Vec<T> = Vec::new();
        if !self.filled {
            let mut i: usize = 0;
            while i < self.write_pos
                invariant
                    self.wf(),
                    i <= self.write_pos,
                    out@ =~= self.buf@.subrange(0, i as int),
                decreases self.write_pos - i,
            {
                out.push(self.buf[i]);
                i += 1;
            }
        } else {
            let mut i: usize = self.write_pos;
            while i < self.capacity
                invariant
                    self.wf(),
                    self.write_pos <= i <= self.capacity,
                    out@ =~= self.buf@.subrange(self.write_pos as int, i as int),
                decreases self.capacity - i,
            {
                out.push(self.buf[i]);
                i += 1;
            }
            let mut j: usize = 0;
            while j < self.write_pos
                invariant
                    self.wf(),
                    j <= self.write_pos,
                    out@ =~= self.buf@.subrange(self.write_pos as int, self.capacity as int)
                        + self.buf@.subrange(0, j as int),
                decreases self.write_pos - j,
            {
                out.push(self.buf[j]);
                j += 1;
            }
        }
        out
    }
}

/// Keeping the last `n` items of a window and then of what follows it is the
/// same as keeping the last `n` items of the whole history: pushing in
/// several slices gives the same buffer as pushing everything at once.
pub proof fn lemma_keep_last_append<T>(a: Seq<T>, b: Seq<T>, n: nat)
    ensures
        keep_last(keep_last(a, n) + b, n) == keep_last(a + b, n),
{
    let ka = keep_last(a, n);
    if a.len() <= n {
        assert(ka == a);
    } else {
        let lhs = keep_last(ka + b, n);
        let rhs = keep_last(a + b, n);
        assert(ka.len() == n);
        assert((ka + b).len() == n + b.len());
        assert(lhs.len() == rhs.len());
        assert forall|i: int| 0 <= i < lhs.len() implies lhs[i] == rhs[i] by {
            let off_l = (ka + b).len() - lhs.len();
            let off_r = (a + b).len() - rhs.len();
            if off_l + i < n {
                assert(lhs[i] == ka[off_l + i]);
                assert(ka[off_l + i] == a[a.len() - n + off_l + i]);
            } else {
                assert(lhs[i] == b[off_l + i - n]);
            }
        }
        assert(lhs =~= rhs);
    }
}

/// What a buffer of capacity `n` that holds `start` holds after `push_slice`
/// of each of `slices` in turn.
pub open spec fn after_pushes<T>(start: Seq<T>, slices: Seq<Seq<T>>, n: nat) -> Seq<T>
    decreases slices.len(),
{
    if slices.len() == 0 {
        start
    } else {
        keep_last(after_pushes(start, slices.drop_last(), n) + slices.last(), n)
    }
}

/// After any series of pushes, the buffer holds the last `n` items of
/// everything pushed (after what it held before), oldest first: from a new
/// buffer, the snapshot is the last `min(n, total)` samples of the slices
/// taken together.
pub proof fn lemma_pushes_keep_last<T>(start: Seq<T>, slices: Seq<Seq<T>>, n: nat)
    requires
        start.len() <= n,
    ensures
        after_pushes(start, slices, n) == keep_last(start + slices.flatten(), n),
    decreases slices.len(),
{
    if slices.len() == 0 {
        assert(start + slices.flatten() =~= start);
    } else {
        let init = slices.drop_last();
        let last = slices.last();
        lemma_pushes_keep_last(start, init, n);
        lemma_keep_last_append(start + init.flatten(), last, n);
        init.lemma_flatten_push(last);
        assert(init.push(last) =~= slices);
        assert(start + init.flatten() + last =~= start + slices.flatten());
    }
}

/// The buffer never holds more than its capacity, and holds everything
/// while fewer items than that have been pushed.
pub proof fn lemma_keep_last_len<T>(s: Seq<T>, n: nat)
    ensures
        keep_last(s, n).len() == if s.len() <= n { s.len() } else { n },
        s.len() <= n ==> keep_last(s, n) == s,
{
}

} // verus!
