use vstd::math::min;
use vstd::prelude::*;

verus! {

/// The view of a buffer of capacity `cap` right after `e` is inserted into a
/// buffer whose view was `s`: the new item stands in front (newest first) and
/// at most `cap` items are kept.
pub open spec fn after_insert<T>(s: Seq<T>, e: T, cap: nat) -> Seq<T> {
    (seq![e] + s).take(min(cap as int, s.len() as int + 1))
}

/// The items a buffer of capacity `cap` retains after the items of `history`
/// were inserted one by one into an empty buffer, newest first.
pub open spec fn retained<T>(history: Seq<T>, cap: nat) -> Seq<T> {
    history.reverse().take(min(cap as int, history.len() as int))
}

/// A fixed-capacity, insertion-ordered buffer: inserting past capacity evicts
/// exactly the oldest item. Storage is a circular arena with an explicit
/// write index, so eviction is the arena slot being overwritten.
///
/// The view is the retained items, newest first.
pub struct DroppingBuf<T> {
    arena: Vec<T>,
    next: usize,
    cap: usize,
}

impl<T> DroppingBuf<T> {
    /// The retained items in chronological order, oldest first.
    spec fn chrono(&self) -> Seq<T> {
        self.arena@.subrange(self.next as int, self.arena@.len() as int) + self.arena@.subrange(
            0,
            self.next as int,
        )
    }

    pub closed spec fn wf(&self) -> bool {
        &&& self.cap <= 65535
        &&& self.arena@.len() <= self.cap
        &&& self.next <= self.arena@.len()
        &&& self.arena@.len() < self.cap ==> self.next == self.arena@.len()
        &&& self.arena@.len() == self.cap && self.cap > 0 ==> self.next < self.cap
    }

    pub closed spec fn capacity(&self) -> nat {
        self.cap as nat
    }

    pub fn with_capacity(capacity: u16) -> (r: DroppingBuf<T>)
        ensures
            r.wf(),
            r@ == Seq::<T>::empty(),
            r.capacity() == capacity as nat,
    {
        let r = DroppingBuf { arena: Vec::new(), next: 0, cap: capacity as usize };
        proof {
            assert(r.chrono() =~= Seq::<T>::empty());
            assert(r@ =~= Seq::<T>::empty());
        }
        r
    }

    /// How many items the buffer currently holds.
    pub fn len(&self) -> (n: usize)
        requires
            self.wf(),
        ensures
            n == self@.len(),
    {
        proof {
            lemma_reverse_index(self.chrono());
        }
        self.arena.len()
    }

    /// The `index`-th newest retained item.
    pub fn get(&self, index: usize) -> (r: &T)
        requires
            self.wf(),
            index < self@.len(),
        ensures
            *r == self@[index as int],
    {
        proof {
            lemma_reverse_index(self.chrono());
        }
        let n = self.arena.len();
        let pos = if self.next > index {
            self.next - 1 - index
        } else {
            self.next + n - 1 - index
        };
        proof {
            assert(self.chrono()[n - 1 - index] == self.arena@[pos as int]);
        }
        &self.arena[pos]
    }

    /// Insert `elem` as the newest item; if the buffer is full, the single
    /// oldest item is evicted first. A buffer of capacity 0 retains nothing.
    pub fn insert(&mut self, elem: T)
        requires
            old(self).wf(),
        ensures
            final(self).wf(),
            final(self).capacity() == old(self).capacity(),
            final(self)@ == after_insert(old(self)@, elem, old(self).capacity()),
    {
        if self.cap == 0 {
            proof {
                assert(after_insert(old(self)@, elem, 0) =~= Seq::<T>::empty());
            }
            return;
        }
        if self.arena.len() == self.cap {
            // Overwrite the oldest slot: evict-oldest, then insert-newest.
            self.arena.remove(self.next);
            self.arena.insert(self.next, elem);
            let ghost pre = *old(self);
            proof {
                assert(self.arena@ =~= pre.arena@.update(pre.next as int, elem));
            }
            self.next = if self.next + 1 == self.cap {
                0
            } else {
                self.next + 1
            };
            proof {
                let c0 = pre.chrono();
                let n = c0.len() as int;
                assert(self.chrono() =~= c0.skip(1) + seq![elem]) by {
                    assert(self.chrono().len() == n);
                    assert(forall|j: int|
                        0 <= j < n ==> self.chrono()[j] == (c0.skip(1) + seq![elem])[j]);
                }
                lemma_reverse_index(self.chrono());
                lemma_reverse_index(c0);
                assert(self@ =~= after_insert(pre@, elem, pre.capacity()));
            }
        } else {
            self.arena.push(elem);
            self.next = if self.arena.len() == self.cap {
                0
            } else {
                self.arena.len()
            };
            proof {
                let pre = *old(self);
                assert(self.chrono() =~= pre.chrono() + seq![elem]);
                lemma_reverse_index(self.chrono());
                lemma_reverse_index(pre.chrono());
                assert(self@ =~= after_insert(pre@, elem, pre.capacity()));
            }
        }
    }

    /// Change the capacity to `new_size`. Growing keeps every item; shrinking
    /// keeps the `new_size` most recently inserted items and drops the rest.
    pub fn resize(&mut self, new_size: u16)
        requires
            old(self).wf(),
        ensures
            final(self).wf(),
            final(self).capacity() == new_size as nat,
            final(self)@ == old(self)@.take(min(new_size as int, old(self)@.len() as int)),
    {
        let ghost chrono0 = old(self).chrono();
        proof {
            lemma_reverse_index(chrono0);
        }
        // Rotate the arena into chronological order, oldest first.
        while self.next > 0
            invariant
                self.next <= self.arena@.len() <= self.cap,
                self.cap == old(self).cap,
                self.chrono() == chrono0,
            decreases self.next,
        {
            let ghost before = *self;
            let x = self.arena.remove(0);
            self.arena.push(x);
            self.next = self.next - 1;
            proof {
                let b = before.arena@;
                let n = b.len() as int;
                assert(self.arena@ =~= b.skip(1) + seq![b[0]]);
                assert(self.chrono() =~= before.chrono()) by {
                    assert(self.chrono().len() == n);
                    assert(forall|j: int|
                        0 <= j < n ==> self.chrono()[j] == before.chrono()[j]);
                }
            }
        }
        proof {
            assert(self.arena@ =~= chrono0);
            assert(chrono0.skip(0) =~= chrono0);
        }
        let ns = new_size as usize;
        // Drop oldest items until at most `new_size` remain.
        while self.arena.len() > ns
            invariant
                self.next == 0,
                self.arena@.len() <= chrono0.len(),
                ns <= self.arena@.len() || self.arena@.len() == chrono0.len(),
                self.arena@ == chrono0.skip(chrono0.len() - self.arena@.len()),
            decreases self.arena@.len(),
        {
            let ghost before = self.arena@;
            self.arena.remove(0);
            proof {
                assert(self.arena@ =~= before.skip(1));
                assert(before.skip(1) =~= chrono0.skip(chrono0.len() - self.arena@.len()));
            }
        }
        self.cap = ns;
        self.next = if self.arena.len() < ns {
            self.arena.len()
        } else {
            0
        };
        proof {
            let n0 = chrono0.len() as int;
            let keep = min(ns as int, n0);
            assert(self.arena@.len() == keep);
            assert(self.chrono() =~= self.arena@);
            let c1 = self.chrono();
            lemma_reverse_index(c1);
            assert forall|i: int| 0 <= i < keep implies c1.reverse()[i] == old(self)@.take(keep)[i] by {
                assert(c1[keep - 1 - i] == chrono0[n0 - keep + (keep - 1 - i)]);
                assert(old(self)@[i] == chrono0[n0 - 1 - i]);
            }
            assert(final(self)@ =~= old(self)@.take(keep));
            assert(old(self)@.len() == n0);
        }
    }
}

impl<T> View for DroppingBuf<T> {
    type V = Seq<T>;

    closed spec fn view(&self) -> Seq<T> {
        self.chrono().reverse()
    }
}

proof fn lemma_reverse_index<T>(s: Seq<T>)
    ensures
        s.reverse().len() == s.len(),
        forall|i: int| 0 <= i < s.len() ==> s.reverse()[i] == s[s.len() - 1 - i],
{
}

/// After any sequence of `insert` calls on an initially empty buffer of
/// capacity `cap`, the buffer holds exactly `min(cap, history.len())` items,
/// and item `i` of the view is the `i`-th most recently inserted one.
pub proof fn lemma_retained_shape<T>(history: Seq<T>, cap: nat)
    ensures
        retained(history, cap).len() == min(cap as int, history.len() as int),
        forall|i: int|
            0 <= i < retained(history, cap).len() ==> retained(history, cap)[i] == history[history.len()
                - 1 - i],
{
    lemma_reverse_index(history);
}

/// An empty history retains nothing.
pub proof fn lemma_retained_empty<T>(cap: nat)
    ensures
        retained(Seq::<T>::empty(), cap) == Seq::<T>::empty(),
{
    assert(retained(Seq::<T>::empty(), cap) =~= Seq::<T>::empty());
}

/// One more insertion relates the retained items exactly as `insert` does:
/// together with `lemma_retained_empty`, every chain of `insert` calls on an
/// empty buffer of capacity `cap` therefore leaves the view at
/// `retained(history, cap)`, the most recent items, newest first.
pub proof fn lemma_retained_step<T>(history: Seq<T>, e: T, cap: nat)
    ensures
        retained(history.push(e), cap) == after_insert(retained(history, cap), e, cap),
{
    lemma_reverse_index(history);
    lemma_reverse_index(history.push(e));
    let lhs = retained(history.push(e), cap);
    let rhs = after_insert(retained(history, cap), e, cap);
    assert forall|i: int| 0 <= i < lhs.len() implies lhs[i] == rhs[i] by {
        if i == 0 {
            assert(lhs[0] == history.push(e)[history.len() as int]);
        } else {
            assert(lhs[i] == history.push(e)[history.len() - i]);
            assert(rhs[i] == history.reverse()[i - 1]);
        }
    }
    assert(lhs =~= rhs);
}

} // verus!
