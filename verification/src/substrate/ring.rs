//! A bounded ring of "recent N events": pushing into a full ring evicts the
//! oldest entry, so the ring never grows beyond its capacity.
use vstd::prelude::*;
use vstd::std_specs::cmp::PartialEqSpec;

verus! {

/// `x` reduced into `[0, n)` when it lies in `[0, 2n)`.
pub open spec fn wrap_index(x: int, n: int) -> int {
    if x < n {
        x
    } else {
        x - n
    }
}

/// The last `n` elements of `s` (all of `s` when it is shorter).
pub open spec fn keep_last<T>(s: Seq<T>, n: nat) -> Seq<T> {
    if s.len() <= n {
        s
    } else {
        s.subrange(s.len() - n, s.len() as int)
    }
}

/// `N` empty slots.
#[verifier::external_body]
fn empty_slots<T, const N: usize>() -> (r: [Option<T>; N])
    ensures
        forall|i: int| 0 <= i < N ==> (#[trigger] r@[i]) is None,
{
    std::array::from_fn(|_| None)
}

/// A fixed-capacity FIFO ring of capacity `N`. Pushing into a full ring
/// overwrites (and returns) the oldest entry.
///
/// Its view is the sequence of stored items, oldest first.
#[derive(Debug)]
pub struct RingBuffer<T, const N: usize> {
    /// Storage; a slot holds `None` until it is filled.
    buf: [Option<T>; N],
    /// Index of the next write position.
    head: usize,
    /// Number of filled slots.
    len: usize,
}

impl<T, const N: usize> RingBuffer<T, N> {
    /// Slot index of the oldest item.
    pub closed spec fn oldest(self) -> int {
        wrap_index(self.head + N - self.len, N as int)
    }

    /// Slot index holding the `i`-th oldest item.
    pub closed spec fn slot(self, i: int) -> int {
        wrap_index(self.oldest() + i, N as int)
    }

    #[verifier::type_invariant]
    closed spec fn well_formed(self) -> bool {
        &&& N > 0
        &&& self.buf@.len() == N
        &&& self.head < N
        &&& self.len <= N
        &&& forall|i: int| 0 <= i < self.len ==> (#[trigger] self.buf@[self.slot(i)]) is Some
    }

    /// Number of stored items, never above the capacity.
    pub closed spec fn count(self) -> nat {
        if self.len <= N {
            self.len as nat
        } else {
            N as nat
        }
    }

    /// The stored items, oldest first.
    pub closed spec fn items(self) -> Seq<T> {
        Seq::new(self.count(), |i: int| self.buf@[self.slot(i)]->Some_0)
    }
}

impl<T, const N: usize> View for RingBuffer<T, N> {
    type V = Seq<T>;

    open spec fn view(&self) -> Seq<T> {
        self.items()
    }
}

impl<T, const N: usize> RingBuffer<T, N> {
    /// Construct an empty ring of capacity `N` (which must be positive).
    pub fn new() -> (r: Self)
        requires
            N > 0,
        ensures
            r@ == Seq::<T>::empty(),
    {
        let buf = empty_slots::<T, N>();
        let r = RingBuffer { buf, head: 0, len: 0 };
        assert(r@ =~= Seq::<T>::empty());
        r
    }

    /// A ring filled by pushing `items` in order into an empty ring: it
    /// holds the newest `N` of them, oldest first (the way a serialized
    /// ring is read back).
    pub fn from_items(items: Vec<T>) -> (r: Self)
        requires
            N > 0,
        ensures
            r@ == keep_last(items@, N as nat),
    {
        let ghost all = items@;
        let mut rest = items;
        let mut stack: Vec<T> = Vec::new();
        while rest.len() > 0
            invariant
                rest@ == all.subrange(0, rest@.len() as int),
                stack@ == all.subrange(rest@.len() as int, all.len() as int).reverse(),
                rest@.len() <= all.len(),
            decreases rest@.len(),
        {
            let x = rest.pop().unwrap();
            stack.push(x);
            proof {
                assert(rest@ =~= all.subrange(0, rest@.len() as int));
                assert(stack@ =~= all.subrange(rest@.len() as int, all.len() as int).reverse());
            }
        }
        let mut ring: Self = RingBuffer::new();
        proof {
            assert(ring@ =~= keep_last(all.subrange(0, 0), N as nat));
        }
        while stack.len() > 0
            invariant
                N > 0,
                stack@.len() <= all.len(),
                stack@ == all.subrange(all.len() - stack@.len(), all.len() as int).reverse(),
                ring@ == keep_last(all.subrange(0, all.len() - stack@.len()), N as nat),
            decreases stack@.len(),
        {
            let ghost k = all.len() - stack@.len();
            let x = stack.pop().unwrap();
            proof {
                assert(x == all[k]);
                lemma_ring_keeps_newest(all.subrange(0, k), x, N as nat);
                assert(all.subrange(0, k).push(x) =~= all.subrange(0, k + 1));
                assert(stack@ =~= all.subrange(k + 1, all.len() as int).reverse());
            }
            let _ = ring.push(x);
        }
        proof {
            assert(all.subrange(0, all.len() as int) =~= all);
        }
        ring
    }


    /// The capacity `N`, which every ring has positive.
    pub fn capacity(&self) -> (r: usize)
        ensures
            r == N,
            N > 0,
    {
        proof {
            use_type_invariant(self);
        }
        N
    }

    /// Number of items currently stored, at most `N` (which is positive).
    pub fn len(&self) -> (r: usize)
        ensures
            r == self@.len(),
            r <= N,
            N > 0,
    {
        proof {
            use_type_invariant(self);
        }
        self.len
    }

    /// `true` when nothing is stored.
    pub fn is_empty(&self) -> (r: bool)
        ensures
            r == (self@.len() == 0),
    {
        proof {
            use_type_invariant(self);
        }
        self.len == 0
    }

    /// `true` when the next push will evict the oldest item.
    pub fn is_full(&self) -> (r: bool)
        ensures
            r == (self@.len() == N),
    {
        proof {
            use_type_invariant(self);
        }
        self.len == N
    }

    /// Push an item. When the ring was full the oldest item is evicted and
    /// returned; otherwise `None`. Afterwards the ring holds the newest `N`
    /// of its previous items followed by `item`.
    pub fn push(&mut self, item: T) -> (r: Option<T>)
        ensures
            final(self)@ == keep_last(old(self)@.push(item), N as nat),
            r == (if old(self)@.len() < N {
                None
            } else {
                Some(old(self)@[0])
            }),
            final(self)@.len() <= N,
    {
        proof {
            use_type_invariant(&*self);
        }
        let ghost pre = *self;
        let head = self.head;
        let len = self.len;
        let new_head: usize = if head + 1 == N {
            0
        } else {
            head + 1
        };
        let mut slot = Some(item);
        proof {
            assert forall|i: int| 0 <= i < len implies (#[trigger] wrap_index(
                wrap_index(head + N - len, N as int) + i,
                N as int,
            ) != head || len == N) && self.buf@[wrap_index(
                wrap_index(head + N - len, N as int) + i,
                N as int,
            )] is Some by {
                assert(self.buf@[self.slot(i)] is Some);
            }
        }
        core::mem::swap(&mut self.buf[head], &mut slot);
        proof {
            assert forall|i: int| 0 <= i < len implies (#[trigger] self.buf@[wrap_index(
                wrap_index(new_head + N - len, N as int) + i,
                N as int,
            )]) is Some by {
                if i + 1 < len {
                    assert(wrap_index(wrap_index(new_head + N - len, N as int) + i, N as int)
                        == pre.slot(i + 1));
                } else {
                    assert(wrap_index(wrap_index(new_head + N - len, N as int) + i, N as int) == (
                    if len < N {
                        head as int
                    } else {
                        pre.slot(i + 1)
                    }));
                }
            }
        }
        self.head = new_head;
        let evicted = if len < N {
            proof {
                assert forall|i: int| 0 <= i < len + 1 implies (#[trigger] self.buf@[wrap_index(
                    wrap_index(new_head + N - (len + 1), N as int) + i,
                    N as int,
                )]) is Some by {
                    if i < len {
                        assert(wrap_index(wrap_index(new_head + N - (len + 1), N as int) + i, N as int)
                            == pre.slot(i));
                    } else {
                        assert(wrap_index(wrap_index(new_head + N - (len + 1), N as int) + i, N as int)
                            == head);
                    }
                }
            }
            self.len = len + 1;
            None
        } else {
            slot
        };
        proof {
            let post = *self;
            if len < N {
                assert forall|i: int| 0 <= i < len implies post.slot(i) == pre.slot(i) by {}
                assert(post.slot(len as int) == head);
                assert(post@ =~= pre@.push(item));
            } else {
                assert forall|i: int| 0 <= i < N - 1 implies post.slot(i) == pre.slot(i + 1) by {}
                assert(post.slot(N - 1) == head);
                assert(post@ =~= pre@.push(item).subrange(1, N + 1));
            }
        }
        evicted
    }

    /// The most recently pushed item, or `None` when empty.
    pub fn most_recent(&self) -> (r: Option<&T>)
        ensures
            r is Some <==> self@.len() > 0,
            r matches Some(x) ==> *x == self@.last(),
    {
        proof {
            use_type_invariant(self);
        }
        if self.len == 0 {
            return None;
        }
        let idx = if self.head == 0 {
            N - 1
        } else {
            self.head - 1
        };
        assert(idx == self.slot(self.len - 1));
        self.buf[idx].as_ref()
    }

    /// Oldest-first cursor over the stored items.
    pub fn iter(&self) -> (r: RingIter<'_, T, N>)
        ensures
            r@ == self@,
    {
        proof {
            use_type_invariant(self);
        }
        let start = if self.head >= self.len {
            self.head - self.len
        } else {
            self.head + (N - self.len)
        };
        proof {
            assert forall|i: int| 0 <= i < self.len implies (#[trigger] self.buf@[wrap_index(
                start + i,
                N as int,
            )]) is Some by {
                assert(wrap_index(start + i, N as int) == self.slot(i));
            }
        }
        let r = RingIter { buf: &self.buf, cursor: start, remaining: self.len };
        assert(r@ =~= self@);
        r
    }

    /// Newest-first cursor over the stored items.
    pub fn iter_recent(&self) -> (r: RingIterRev<'_, T, N>)
        ensures
            r@ == self@.reverse(),
    {
        proof {
            use_type_invariant(self);
        }
        let end = if self.head == 0 {
            N - 1
        } else {
            self.head - 1
        };
        proof {
            assert forall|i: int| 0 <= i < self.len implies (#[trigger] self.buf@[wrap_index(
                end + N - i,
                N as int,
            )]) is Some by {
                assert(wrap_index(end + N - i, N as int) == self.slot(self.len - 1 - i));
            }
        }
        let r = RingIterRev { buf: &self.buf, cursor: end, remaining: self.len };
        assert forall|i: int| 0 <= i < self.len implies r.back_slot(i) == self.slot(
            self.len - 1 - i,
        ) by {}
        assert(r@ =~= self@.reverse());
        r
    }

    /// Drop all items.
    pub fn clear(&mut self)
        ensures
            final(self)@ == Seq::<T>::empty(),
    {
        proof {
            use_type_invariant(&*self);
        }
        self.len = 0;
        self.head = 0;
        let mut i: usize = 0;
        while i < N
            invariant
                i <= N,
                self.buf@.len() == N,
                self.len == 0,
                self.head == 0,
            decreases N - i,
        {
            self.buf[i] = None;
            i = i + 1;
        }
        assert(self@ =~= Seq::<T>::empty());
    }
}

impl<T: Clone, const N: usize> Clone for RingBuffer<T, N> {
    /// An independent ring holding a clone of every item, in the same order.
    fn clone(&self) -> (r: Self)
        ensures
            r@.len() == self@.len(),
            forall|i: int| 0 <= i < self@.len() ==> cloned(#[trigger] self@[i], r@[i]),
            (forall|x: T, y: T| #[trigger] cloned(x, y) ==> x == y) ==> r == *self,
    {
        proof {
            use_type_invariant(self);
        }
        let mut buf = empty_slots::<T, N>();
        let mut i: usize = 0;
        while i < N
            invariant
                i <= N,
                self.buf@.len() == N,
                forall|j: int|
                    0 <= j < i ==> (#[trigger] self.buf@[j] is Some ==> buf@[j] is Some && cloned(
                        self.buf@[j]->Some_0,
                        buf@[j]->Some_0,
                    )),
                forall|j: int| 0 <= j < i ==> (#[trigger] self.buf@[j] is None ==> buf@[j] is None),
            decreases N - i,
        {
            let c = match &self.buf[i] {
                Some(x) => Some(x.clone()),
                None => None,
            };
            buf[i] = c;
            i = i + 1;
        }
        let head = self.head;
        let len = self.len;
        proof {
            assert forall|k: int| 0 <= k < len implies (#[trigger] buf@[wrap_index(
                wrap_index(head + N - len, N as int) + k,
                N as int,
            )]) is Some by {
                assert(self.buf@[self.slot(k)] is Some);
            }
        }
        let r = RingBuffer { buf, head, len };
        proof {
            assert forall|k: int| 0 <= k < self@.len() implies cloned(#[trigger] self@[k], r@[k]) by {
                assert(self.buf@[self.slot(k)] is Some);
                assert(r.slot(k) == self.slot(k));
            }
            if forall|x: T, y: T| #[trigger] cloned(x, y) ==> x == y {
                assert forall|j: int| 0 <= j < N implies r.buf[j] == self.buf[j] by {
                    if self.buf@[j] is Some {
                        assert(cloned(self.buf@[j]->Some_0, r.buf@[j]->Some_0));
                    } else {
                        assert(r.buf@[j] is None);
                    }
                }
                assert(r.buf =~= self.buf);
            }
        }
        r
    }
}

impl<T: PartialEq, const N: usize> PartialEq for RingBuffer<T, N> {
    /// Two rings are equal when they hold equal items in the same order;
    /// where the items sit in storage does not matter.
    fn eq(&self, other: &Self) -> (r: bool) {
        if self.len() != other.len() {
            return false;
        }
        let mut a = self.iter();
        let mut b = other.iter();
        let n = self.len();
        let mut k: usize = 0;
        while k < n
            invariant
                n == self@.len(),
                n == other@.len(),
                k <= n,
                a@ == self@.subrange(k as int, n as int),
                b@ == other@.subrange(k as int, n as int),
                forall|j: int| 0 <= j < k ==> T::obeys_eq_spec() ==> self@[j].eq_spec(&other@[j]),
            decreases n - k,
        {
            let x = a.next();
            let y = b.next();
            match (x, y) {
                (Some(x), Some(y)) => {
                    if !(x == y) {
                        return false;
                    }
                },
                _ => {
                    return false;
                },
            }
            proof {
                assert(a@ =~= self@.subrange(k + 1, n as int));
                assert(b@ =~= other@.subrange(k + 1, n as int));
            }
            k = k + 1;
        }
        true
    }
}

impl<T: PartialEq, const N: usize> vstd::std_specs::cmp::PartialEqSpecImpl for RingBuffer<T, N> {
    open spec fn obeys_eq_spec() -> bool {
        T::obeys_eq_spec()
    }

    open spec fn eq_spec(&self, other: &Self) -> bool {
        &&& self@.len() == other@.len()
        &&& forall|i: int| 0 <= i < self@.len() ==> (#[trigger] self@[i]).eq_spec(&other@[i])
    }
}

/// Ring equality compares every stored item, oldest first: two rings are
/// `==` exactly when they hold the same number of items and the items at
/// each position are `==`; an unequal item anywhere, the oldest included,
/// makes the rings unequal.
pub proof fn lemma_ring_eq_is_elementwise<T: PartialEq, const N: usize>(
    a: RingBuffer<T, N>,
    b: RingBuffer<T, N>,
)
    ensures
        a.eq_spec(&b) <==> (a@.len() == b@.len() && forall|i: int|
            0 <= i < a@.len() ==> (#[trigger] a@[i]).eq_spec(&b@[i])),
        forall|i: int|
            0 <= i < a@.len() && i < b@.len() && !(#[trigger] a@[i]).eq_spec(&b@[i])
                ==> !a.eq_spec(&b),
        a@.len() != b@.len() ==> !a.eq_spec(&b),
{
}

/// For items whose `==` is equality of values (integers, for instance), two
/// rings are `==` exactly when they hold the same items in the same order.
pub proof fn lemma_ring_eq_is_content_equality<T: PartialEq, const N: usize>(
    a: RingBuffer<T, N>,
    b: RingBuffer<T, N>,
)
    requires
        forall|x: T, y: T| #[trigger] x.eq_spec(&y) <==> x == y,
    ensures
        a.eq_spec(&b) <==> a@ == b@,
{
    if a.eq_spec(&b) {
        assert(a@ =~= b@) by {
            assert forall|i: int| 0 <= i < a@.len() implies a@[i] == b@[i] by {
                assert(a@[i].eq_spec(&b@[i]));
            }
        }
    }
    if a@ == b@ {
        assert forall|i: int| 0 <= i < a@.len() implies (#[trigger] a@[i]).eq_spec(&b@[i]) by {
            assert(a@[i] == b@[i]);
        }
    }
}

/// A ring never holds more than its capacity.
pub proof fn lemma_ring_len_bounded<T, const N: usize>(r: RingBuffer<T, N>)
    ensures
        r@.len() <= N,
{
}

/// Pushing keeps exactly the newest items: a ring that held the newest `n`
/// of `history` holds, after one more push of `x`, the newest `n` of
/// `history` followed by `x`. So a ring filled by any sequence of pushes from
/// empty holds the newest `N` items pushed, oldest first.
pub proof fn lemma_ring_keeps_newest<T>(history: Seq<T>, x: T, n: nat)
    requires
        n > 0,
    ensures
        keep_last(keep_last(history, n).push(x), n) == keep_last(history.push(x), n),
        keep_last(history, n).len() <= n,
{
    let k = keep_last(history, n);
    if history.len() <= n {
    } else {
        assert(k.push(x).len() == n + 1);
        assert(keep_last(k.push(x), n) =~= keep_last(history.push(x), n));
    }
}

/// What a ring of capacity `n` holding `start` holds after pushing `xs` in
/// order, one `push` at a time.
pub open spec fn after_pushes<T>(start: Seq<T>, xs: Seq<T>, n: nat) -> Seq<T>
    decreases xs.len(),
{
    if xs.len() == 0 {
        start
    } else {
        keep_last(after_pushes(start, xs.drop_last(), n).push(xs.last()), n)
    }
}

/// A ring filled from empty by any sequence of pushes holds exactly the
/// newest `n` items pushed (all of them when fewer were pushed), oldest
/// first.
pub proof fn lemma_pushes_from_empty_keep_newest<T>(xs: Seq<T>, n: nat)
    requires
        n > 0,
    ensures
        after_pushes(Seq::<T>::empty(), xs, n) == keep_last(xs, n),
    decreases xs.len(),
{
    if xs.len() > 0 {
        let prefix = xs.drop_last();
        lemma_pushes_from_empty_keep_newest(prefix, n);
        lemma_ring_keeps_newest(prefix, xs.last(), n);
        assert(prefix.push(xs.last()) =~= xs);
    }
}

/// Oldest-first cursor over a [`RingBuffer`].
pub struct RingIter<'a, T, const N: usize> {
    buf: &'a [Option<T>; N],
    cursor: usize,
    remaining: usize,
}

impl<'a, T, const N: usize> RingIter<'a, T, N> {
    /// Slot holding the `i`-th remaining item.
    pub closed spec fn fwd_slot(self, i: int) -> int {
        wrap_index(self.cursor + i, N as int)
    }

    #[verifier::type_invariant]
    closed spec fn well_formed(self) -> bool {
        &&& N > 0
        &&& self.buf@.len() == N
        &&& self.cursor < N
        &&& self.remaining <= N
        &&& forall|i: int|
            0 <= i < self.remaining ==> (#[trigger] self.buf@[self.fwd_slot(i)]) is Some
    }
}

impl<'a, T, const N: usize> View for RingIter<'a, T, N> {
    type V = Seq<T>;

    closed spec fn view(&self) -> Seq<T> {
        Seq::new(self.remaining as nat, |i: int| self.buf@[self.fwd_slot(i)]->Some_0)
    }
}

impl<'a, T, const N: usize> RingIter<'a, T, N> {
    /// The next item, oldest first; `None` once all items were yielded.
    pub fn next(&mut self) -> (r: Option<&'a T>)
        ensures
            old(self)@.len() == 0 ==> r is None && final(self)@ == old(self)@,
            old(self)@.len() > 0 ==> (r matches Some(x) && *x == old(self)@[0] && final(self)@
                == old(self)@.drop_first()),
    {
        proof {
            use_type_invariant(&*self);
        }
        if self.remaining == 0 {
            return None;
        }
        let ghost pre = *self;
        assert(self.buf@[self.fwd_slot(0)] is Some);
        let buf: &'a [Option<T>; N] = self.buf;
        let cursor = self.cursor;
        let item = match &buf[cursor] {
            Some(x) => x,
            None => {
                assert(false);
                return None;
            },
        };
        let rem = self.remaining - 1;
        let next_cursor: usize = if cursor + 1 == N {
            0
        } else {
            cursor + 1
        };
        proof {
            assert forall|i: int| 0 <= i < rem implies (#[trigger] self.buf@[wrap_index(
                cursor + i,
                N as int,
            )]) is Some by {
                assert(wrap_index(cursor + i, N as int) == pre.fwd_slot(i));
            }
        }
        self.remaining = rem;
        proof {
            assert forall|i: int| 0 <= i < rem implies (#[trigger] self.buf@[wrap_index(
                next_cursor + i,
                N as int,
            )]) is Some by {
                assert(wrap_index(next_cursor + i, N as int) == pre.fwd_slot(i + 1));
            }
        }
        self.cursor = next_cursor;
        proof {
            assert forall|i: int| 0 <= i < self.remaining implies self.fwd_slot(i) == pre.fwd_slot(
                i + 1,
            ) by {}
            assert(self@ =~= pre@.drop_first());
        }
        Some(item)
    }

    /// Number of items not yet yielded.
    pub fn len(&self) -> (r: usize)
        ensures
            r == self@.len(),
    {
        self.remaining
    }
}

/// Newest-first cursor over a [`RingBuffer`].
pub struct RingIterRev<'a, T, const N: usize> {
    buf: &'a [Option<T>; N],
    cursor: usize,
    remaining: usize,
}

impl<'a, T, const N: usize> RingIterRev<'a, T, N> {
    /// Slot holding the `i`-th remaining item (walking backwards).
    pub closed spec fn back_slot(self, i: int) -> int {
        wrap_index(self.cursor + N - i, N as int)
    }

    #[verifier::type_invariant]
    closed spec fn well_formed(self) -> bool {
        &&& N > 0
        &&& self.buf@.len() == N
        &&& self.cursor < N
        &&& self.remaining <= N
        &&& forall|i: int|
            0 <= i < self.remaining ==> (#[trigger] self.buf@[self.back_slot(i)]) is Some
    }
}

impl<'a, T, const N: usize> View for RingIterRev<'a, T, N> {
    type V = Seq<T>;

    closed spec fn view(&self) -> Seq<T> {
        Seq::new(self.remaining as nat, |i: int| self.buf@[self.back_slot(i)]->Some_0)
    }
}

impl<'a, T, const N: usize> RingIterRev<'a, T, N> {
    /// The next item, newest first; `None` once all items were yielded.
    pub fn next(&mut self) -> (r: Option<&'a T>)
        ensures
            old(self)@.len() == 0 ==> r is None && final(self)@ == old(self)@,
            old(self)@.len() > 0 ==> (r matches Some(x) && *x == old(self)@[0] && final(self)@
                == old(self)@.drop_first()),
    {
        proof {
            use_type_invariant(&*self);
        }
        if self.remaining == 0 {
            return None;
        }
        let ghost pre = *self;
        assert(self.buf@[self.back_slot(0)] is Some);
        let buf: &'a [Option<T>; N] = self.buf;
        let cursor = self.cursor;
        let item = match &buf[cursor] {
            Some(x) => x,
            None => {
                assert(false);
                return None;
            },
        };
        let rem = self.remaining - 1;
        let next_cursor: usize = if cursor == 0 {
            N - 1
        } else {
            cursor - 1
        };
        proof {
            assert forall|i: int| 0 <= i < rem implies (#[trigger] self.buf@[wrap_index(
                cursor + N - i,
                N as int,
            )]) is Some by {
                assert(wrap_index(cursor + N - i, N as int) == pre.back_slot(i));
            }
        }
        self.remaining = rem;
        proof {
            assert forall|i: int| 0 <= i < rem implies (#[trigger] self.buf@[wrap_index(
                next_cursor + N - i,
                N as int,
            )]) is Some by {
                assert(wrap_index(next_cursor + N - i, N as int) == pre.back_slot(i + 1));
            }
        }
        self.cursor = next_cursor;
        proof {
            assert forall|i: int| 0 <= i < self.remaining implies self.back_slot(i)
                == pre.back_slot(i + 1) by {}
            assert(self@ =~= pre@.drop_first());
        }
        Some(item)
    }

    /// Number of items not yet yielded.
    pub fn len(&self) -> (r: usize)
        ensures
            r == self@.len(),
    {
        self.remaining
    }
}

} // verus!
