use vstd::prelude::*;
use std::collections::VecDeque;
use crate::random::sample_indices;

verus! {

broadcast use vstd::std_specs::vecdeque::group_vec_dequeue_axioms;

/// Capacity of the replay memory.
pub const MAX_MEMORY: usize = 100_000;

/// Largest number of transitions replayed in one batch.
pub const BATCH_SIZE: usize = 1000;

/// How many times a rewarding transition is stored.
pub const REWARD_COPIES: usize = 10;

/// `s` after inserting `x` at the back, evicting the front when full.
pub open spec fn fifo_insert<T>(s: Seq<T>, x: T) -> Seq<T> {
    if s.len() >= MAX_MEMORY {
        s.drop_first().push(x)
    } else {
        s.push(x)
    }
}

/// `s` after inserting each item of `xs` in turn.
pub open spec fn insert_all<T>(s: Seq<T>, xs: Seq<T>) -> Seq<T>
    decreases xs.len(),
{
    if xs.len() == 0 {
        s
    } else {
        fifo_insert(insert_all(s, xs.drop_last()), xs.last())
    }
}

/// Number of times a transition is stored.
pub open spec fn copies(rewarding: bool) -> nat {
    if rewarding {
        REWARD_COPIES as nat
    } else {
        1
    }
}

/// `s` after remembering `item`.
pub open spec fn remembered<T>(s: Seq<T>, item: T, rewarding: bool) -> Seq<T> {
    insert_all(s, Seq::new(copies(rewarding), |_i: int| item))
}

/// Index of the oldest item that survives `n` insertions into an empty memory.
pub open spec fn first_kept(n: int) -> int {
    if n > MAX_MEMORY {
        n - MAX_MEMORY
    } else {
        0
    }
}

/// A batch drawn from `s` by the distinct positions `idx`.
pub open spec fn picked<T>(s: Seq<T>, idx: Seq<usize>) -> Seq<T> {
    idx.map_values(|i: usize| s[i as int])
}

/// Bounded first-in-first-out memory of past transitions.
pub struct ReplayBuffer<T> {
    items: VecDeque<T>,
}

impl<T: Copy> View for ReplayBuffer<T> {
    type V = Seq<T>;

    closed spec fn view(&self) -> Seq<T> {
        self.items@
    }
}

impl<T: Copy> ReplayBuffer<T> {
    pub open spec fn wf(&self) -> bool {
        self@.len() <= MAX_MEMORY
    }

    pub fn new() -> (r: ReplayBuffer<T>)
        ensures
            r.wf(),
            r@ == Seq::<T>::empty(),
    {
        ReplayBuffer { items: VecDeque::with_capacity(MAX_MEMORY) }
    }

    pub fn len(&self) -> (r: usize)
        ensures
            r == self@.len(),
    {
        self.items.len()
    }

    /// The item at position `i`, counted from the oldest.
    pub fn get(&self, i: usize) -> (r: T)
        requires
            i < self@.len(),
        ensures
            r == self@[i as int],
    {
        self.items[i]
    }

    /// Stores `item` as the newest entry, evicting the oldest when full.
    pub fn push(&mut self, item: T)
        requires
            old(self).wf(),
        ensures
            final(self).wf(),
            final(self)@ == fifo_insert(old(self)@, item),
    {
        if self.items.len() == MAX_MEMORY {
            self.items.pop_front();
        }
        self.items.push_back(item);
    }

    /// Stores a transition: `REWARD_COPIES` times in a row when it earned a
    /// positive reward, once otherwise, each copy evicting when full.
    pub fn remember(&mut self, item: T, rewarding: bool)
        requires
            old(self).wf(),
        ensures
            final(self).wf(),
            final(self)@ == remembered(old(self)@, item, rewarding),
    {
        let n: usize = if rewarding { REWARD_COPIES } else { 1 };
        let mut k: usize = 0;
        while k < n
            invariant
                k <= n,
                n == copies(rewarding),
                self.wf(),
                self@ == insert_all(old(self)@, Seq::new(k as nat, |_i: int| item)),
            decreases n - k,
        {
            proof {
                let next = Seq::new((k + 1) as nat, |_i: int| item);
                assert(next.drop_last() =~= Seq::new(k as nat, |_i: int| item));
            }
            self.push(item);
            k += 1;
        }
    }

    /// The items at the positions `indices`, in that order.
    pub fn pick(&self, indices: &Vec<usize>) -> (r: Vec<T>)
        requires
            forall|i: int| 0 <= i < indices@.len() ==> indices@[i] < self@.len(),
        ensures
            r@ == picked(self@, indices@),
    {
        let mut out: Vec<T> = Vec::new();
        let mut k: usize = 0;
        while k < indices.len()
            invariant
                k <= indices@.len(),
                forall|i: int| 0 <= i < indices@.len() ==> indices@[i] < self@.len(),
                out@ =~= picked(self@, indices@.take(k as int)),
            decreases indices@.len() - k,
        {
            let at = indices[k];
            out.push(self.items[at]);
            k += 1;
            proof {
                assert(indices@.take(k as int).drop_last() =~= indices@.take(k - 1));
            }
        }
        assert(indices@.take(k as int) =~= indices@);
        out
    }

    /// A uniform random batch of `min(BATCH_SIZE, len)` distinct entries,
    /// in random order.
    pub fn sample_batch(&self) -> (r: Vec<T>)
        ensures
            exists|idx: Seq<usize>| {
                &&& idx.len() == if self@.len() < BATCH_SIZE { self@.len() } else { BATCH_SIZE as nat }
                &&& idx.no_duplicates()
                &&& forall|i: int| 0 <= i < idx.len() ==> idx[i] < self@.len()
                &&& r@ == picked(self@, idx)
            },
    {
        let len = self.items.len();
        let amount = if BATCH_SIZE < len { BATCH_SIZE } else { len };
        let indices = sample_indices(len, amount);
        let r = self.pick(&indices);
        assert(r@ == picked(self@, indices@));
        r
    }
}

/// Inserting items one by one into a memory that holds at most
/// `MAX_MEMORY` of them keeps exactly the newest `MAX_MEMORY` of everything
/// seen, oldest first.
pub proof fn lemma_keeps_newest<T>(s: Seq<T>, xs: Seq<T>)
    requires
        s.len() <= MAX_MEMORY,
    ensures
        insert_all(s, xs) == (s + xs).subrange(
            first_kept((s.len() + xs.len()) as int),
            (s.len() + xs.len()) as int,
        ),
    decreases xs.len(),
{
    let n: int = (s.len() + xs.len()) as int;
    if xs.len() == 0 {
        assert((s + xs).subrange(0, n) =~= s);
    } else {
        let ys = xs.drop_last();
        lemma_keeps_newest(s, ys);
        let prev = insert_all(s, ys);
        assert(s + ys =~= (s + xs).drop_last());
        if prev.len() >= MAX_MEMORY {
            assert(prev.drop_first().push(xs.last()) =~= (s + xs).subrange(first_kept(n), n));
        } else {
            assert(prev.push(xs.last()) =~= (s + xs).subrange(first_kept(n), n));
        }
    }
}

/// Remembering a transition grows the memory by its number of copies
/// (ten when rewarding, one otherwise), up to the capacity.
pub proof fn lemma_remember_growth<T>(s: Seq<T>, item: T, rewarding: bool)
    requires
        s.len() <= MAX_MEMORY,
    ensures
        remembered(s, item, rewarding).len() == if s.len() + copies(rewarding) > MAX_MEMORY {
            MAX_MEMORY as nat
        } else {
            s.len() + copies(rewarding)
        },
{
    lemma_keeps_newest(s, Seq::new(copies(rewarding), |_i: int| item));
}

} // verus!
