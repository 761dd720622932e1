use std::collections::VecDeque;
use vstd::prelude::*;

verus! {

/// How many running animations are remembered at most.
pub const MAX_ANIMATIONS: usize = 100;

/// The last `limit` items of `s`, or all of them when there are fewer.
pub open spec fn newest<T>(s: Seq<T>, limit: nat) -> Seq<T> {
    if s.len() <= limit {
        s
    } else {
        s.subrange(s.len() - limit, s.len() as int)
    }
}

/// The animations started so far, oldest first. Old ones are let go of
/// once more than a bounded number are held.
pub struct AnimationQueue<T> {
    entries: VecDeque<T>,
}

impl<T> View for AnimationQueue<T> {
    type V = Seq<T>;

    closed spec fn view(&self) -> Seq<T> {
        self.entries@
    }
}

impl<T> AnimationQueue<T> {
    /// An empty queue.
    pub fn new() -> (q: Self)
        ensures
            q@ == Seq::<T>::empty(),
    {
        AnimationQueue { entries: VecDeque::new() }
    }

    /// How many animations are held.
    pub fn len(&self) -> (n: usize)
        ensures
            n == self@.len(),
    {
        self.entries.len()
    }

    /// Whether no animation is held.
    pub fn is_empty(&self) -> (b: bool)
        ensures
            b == (self@.len() == 0),
    {
        self.entries.len() == 0
    }

    /// Lets go of every animation.
    pub fn clear(&mut self)
        ensures
            final(self)@ == Seq::<T>::empty(),
    {
        self.entries.clear();
    }

    /// Appends a newly started animation.
    pub fn push_back(&mut self, entry: T)
        ensures
            final(self)@ == old(self)@.push(entry),
    {
        self.entries.push_back(entry);
    }

    /// Drops the oldest animations until at most `limit` remain.
    pub fn trim_to_newest(&mut self, limit: usize)
        ensures
            final(self)@ == newest(old(self)@, limit as nat),
    {
        let ghost original = self.entries@;
        let ghost mut start: int = 0;
        while self.entries.len() > limit
            invariant
                0 <= start <= original.len(),
                self.entries@ == original.subrange(start, original.len() as int),
                start == 0 || original.len() - start >= limit,
            decreases self.entries@.len(),
        {
            self.entries.pop_front();
            proof {
                start = start + 1;
            }
        }
        proof {
            if start == 0 {
                assert(self.entries@ =~= original);
            }
        }
    }

    /// Appends a newly started animation, then keeps only the newest
    /// `MAX_ANIMATIONS` of them.
    pub fn record(&mut self, entry: T)
        ensures
            final(self)@ == newest(old(self)@.push(entry), MAX_ANIMATIONS as nat),
    {
        self.push_back(entry);
        self.trim_to_newest(MAX_ANIMATIONS);
    }
}

/// Keeping the newest items never leaves more than the limit.
pub proof fn lemma_newest_bounded<T>(s: Seq<T>, limit: nat)
    ensures
        newest(s, limit).len() <= limit,
        newest(s, limit).len() == if s.len() <= limit { s.len() } else { limit },
{
}

/// Keeping the newest items keeps the last item, when the limit is positive.
pub proof fn lemma_newest_keeps_last<T>(s: Seq<T>, limit: nat)
    requires
        s.len() > 0,
        limit > 0,
    ensures
        newest(s, limit).last() == s.last(),
{
}

/// Trimming twice to the same limit is the same as trimming once.
pub proof fn lemma_newest_idempotent<T>(s: Seq<T>, limit: nat)
    ensures
        newest(newest(s, limit), limit) == newest(s, limit),
{
}

/// Keeping the newest items keeps exactly the last `min(len, limit)` items
/// of the sequence, in their order.
pub proof fn lemma_newest_is_the_tail<T>(s: Seq<T>, limit: nat)
    ensures
        ({
            let r = newest(s, limit);
            &&& r.len() == if s.len() <= limit {
                s.len()
            } else {
                limit
            }
            &&& forall|j: int| 0 <= j < r.len() ==> #[trigger] r[j] == s[s.len() - r.len() + j]
        }),
{
}

/// Recording into a queue keeps the new one last, and
/// before it the newest of the old ones, up to `MAX_ANIMATIONS` in all: a
/// full queue drops its oldest.
pub proof fn lemma_record_keeps_the_newest<T>(held: Seq<T>, entry: T)
    ensures
        ({
            let r = newest(held.push(entry), MAX_ANIMATIONS as nat);
            &&& r.len() == if held.len() < 100 {
                held.len() + 1
            } else {
                100
            }
            &&& r[r.len() - 1] == entry
            &&& forall|j: int|
                0 <= j < r.len() - 1 ==> #[trigger] r[j] == held[held.len() + 1 - r.len() + j]
        }),
{
}

} // verus!
