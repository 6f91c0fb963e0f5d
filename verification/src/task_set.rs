//! A fixed-capacity set of task ids, one bit per id.

use vstd::prelude::*;

verus! {

/// Number of task slots: the width of the bit mask.
pub const MAX_TASKS: usize = 32;

/// Whether bit `i` of `bits` is set.
pub open spec fn has_bit(bits: u32, i: nat) -> bool {
    i < 32 && (bits >> (i as u32)) & 1u32 == 1u32
}

/// The task ids that a mask names: the positions of its set bits.
pub open spec fn mask_ids(bits: u32) -> Set<nat> {
    Set::new(|i: nat| has_bit(bits, i))
}

/// `i` is a member of `s` and no member of `s` is below it.
pub open spec fn is_lowest(s: Set<nat>, i: nat) -> bool {
    s.contains(i) && forall|j: nat| s.contains(j) ==> i <= j
}

/// The least member of `s` (arbitrary when `s` is empty).
pub open spec fn lowest_of(s: Set<nat>) -> nat {
    choose|i: nat| is_lowest(s, i)
}

/// A set has at most one least member.
pub proof fn lemma_lowest_unique(s: Set<nat>, i: nat)
    requires
        is_lowest(s, i),
    ensures
        lowest_of(s) == i,
{
    let k = lowest_of(s);
    assert(is_lowest(s, k));
}

/// Every non-empty set of task ids has a least member.
pub proof fn lemma_lowest_exists(s: Set<nat>, i: nat)
    requires
        s.contains(i),
    ensures
        is_lowest(s, lowest_of(s)),
    decreases i,
{
    if exists|j: nat| s.contains(j) && j < i {
        let j = choose|j: nat| s.contains(j) && j < i;
        lemma_lowest_exists(s, j);
    } else {
        assert(is_lowest(s, i));
    }
}

/// The ids of the union of two masks are those of either.
pub proof fn lemma_mask_or(a: u32, b: u32)
    ensures
        mask_ids(a | b) == mask_ids(a).union(mask_ids(b)),
{
    assert forall|i: nat| has_bit(a | b, i) == (has_bit(a, i) || has_bit(b, i)) by {
        if i < 32 {
            let k = i as u32;
            assert((((a | b) >> k) & 1u32 == 1u32) == (((a >> k) & 1u32 == 1u32) || ((b >> k)
                & 1u32 == 1u32))) by (bit_vector);
        }
    }
    assert(mask_ids(a | b) =~= mask_ids(a).union(mask_ids(b)));
}

/// The ids of the intersection of two masks are those of both.
pub proof fn lemma_mask_and(a: u32, b: u32)
    ensures
        mask_ids(a & b) == mask_ids(a).intersect(mask_ids(b)),
{
    assert forall|i: nat| has_bit(a & b, i) == (has_bit(a, i) && has_bit(b, i)) by {
        if i < 32 {
            let k = i as u32;
            assert((((a & b) >> k) & 1u32 == 1u32) == (((a >> k) & 1u32 == 1u32) && ((b >> k)
                & 1u32 == 1u32))) by (bit_vector);
        }
    }
    assert(mask_ids(a & b) =~= mask_ids(a).intersect(mask_ids(b)));
}

/// Clearing the bits of `b` in `a` takes the ids of `b` out of those of `a`.
pub proof fn lemma_mask_and_not(a: u32, b: u32)
    ensures
        mask_ids(a & !b) == mask_ids(a).difference(mask_ids(b)),
{
    assert forall|i: nat| has_bit(a & !b, i) == (has_bit(a, i) && !has_bit(b, i)) by {
        if i < 32 {
            let k = i as u32;
            assert((((a & !b) >> k) & 1u32 == 1u32) == (((a >> k) & 1u32 == 1u32) && !((b >> k)
                & 1u32 == 1u32))) by (bit_vector);
        }
    }
    assert(mask_ids(a & !b) =~= mask_ids(a).difference(mask_ids(b)));
}

/// A mask with the single bit `id` names the single task `id`.
pub proof fn lemma_mask_single(id: u32)
    requires
        id < 32,
    ensures
        mask_ids(1u32 << id) == Set::<nat>::empty().insert(id as nat),
{
    assert forall|i: nat| has_bit(1u32 << id, i) == (i == id as nat) by {
        if i < 32 {
            let k = i as u32;
            assert((((1u32 << id) >> k) & 1u32 == 1u32) == (k == id)) by (bit_vector)
                requires
                    id < 32,
                    k < 32,
            ;
        }
    }
    assert(mask_ids(1u32 << id) =~= Set::<nat>::empty().insert(id as nat));
}

/// The zero mask names no task.
pub proof fn lemma_mask_none()
    ensures
        mask_ids(0u32) == Set::<nat>::empty(),
{
    assert forall|i: nat| !has_bit(0u32, i) by {
        if i < 32 {
            let k = i as u32;
            assert((0u32 >> k) & 1u32 == 0u32) by (bit_vector);
        }
    }
    assert(mask_ids(0u32) =~= Set::<nat>::empty());
}

/// A set of task ids below [`MAX_TASKS`].
#[derive(Clone, Copy, Debug, PartialEq, Eq)]
pub struct TaskSet {
    bits: u32,
}

impl View for TaskSet {
    type V = Set<nat>;

    closed spec fn view(&self) -> Set<nat> {
        mask_ids(self.bits)
    }
}

impl TaskSet {
    /// The set without members.
    pub fn empty() -> (s: TaskSet)
        ensures
            s@ == Set::<nat>::empty(),
    {
        proof {
            lemma_mask_none();
        }
        TaskSet { bits: 0 }
    }

    /// The set of the ids whose bits are set in `bits`.
    pub fn from_mask(bits: u32) -> (s: TaskSet)
        ensures
            s@ == mask_ids(bits),
    {
        TaskSet { bits }
    }

    /// The members as a bit mask.
    pub fn mask(&self) -> (bits: u32)
        ensures
            mask_ids(bits) == self@,
    {
        self.bits
    }

    /// Whether `id` is a member.
    pub fn contains(&self, id: usize) -> (r: bool)
        ensures
            r == self@.contains(id as nat),
    {
        if id >= MAX_TASKS {
            return false;
        }
        let k: u32 = id as u32;
        (self.bits >> k) & 1u32 == 1u32
    }

    /// The set with `id` added.
    pub fn with(&self, id: usize) -> (s: TaskSet)
        requires
            id < MAX_TASKS,
        ensures
            s@ == self@.insert(id as nat),
    {
        let k: u32 = id as u32;
        proof {
            lemma_mask_single(k);
            lemma_mask_or(self.bits, 1u32 << k);
            assert(self@.union(Set::<nat>::empty().insert(id as nat)) =~= self@.insert(id as nat));
        }
        TaskSet { bits: self.bits | (1u32 << k) }
    }

    /// The set with `id` taken out.
    pub fn without(&self, id: usize) -> (s: TaskSet)
        ensures
            s@ == self@.remove(id as nat),
    {
        if id >= MAX_TASKS {
            assert(self@.remove(id as nat) =~= self@);
            return *self;
        }
        let k: u32 = id as u32;
        proof {
            lemma_mask_single(k);
            lemma_mask_and_not(self.bits, 1u32 << k);
            assert(self@.difference(Set::<nat>::empty().insert(id as nat)) =~= self@.remove(
                id as nat,
            ));
        }
        TaskSet { bits: self.bits & !(1u32 << k) }
    }

    /// The members of either set.
    pub fn union(&self, other: &TaskSet) -> (s: TaskSet)
        ensures
            s@ == self@.union(other@),
    {
        proof {
            lemma_mask_or(self.bits, other.bits);
        }
        TaskSet { bits: self.bits | other.bits }
    }

    /// The members of both sets.
    pub fn intersect(&self, other: &TaskSet) -> (s: TaskSet)
        ensures
            s@ == self@.intersect(other@),
    {
        proof {
            lemma_mask_and(self.bits, other.bits);
        }
        TaskSet { bits: self.bits & other.bits }
    }

    /// The members of this set that `other` does not have.
    pub fn difference(&self, other: &TaskSet) -> (s: TaskSet)
        ensures
            s@ == self@.difference(other@),
    {
        proof {
            lemma_mask_and_not(self.bits, other.bits);
        }
        TaskSet { bits: self.bits & !other.bits }
    }

    /// The least member, if there is any.
    pub fn lowest(&self) -> (r: Option<usize>)
        ensures
            match r {
                Some(id) => is_lowest(self@, id as nat),
                None => self@ == Set::<nat>::empty(),
            },
    {
        if self.bits == 0 {
            proof {
                lemma_mask_none();
            }
            return None;
        }
        let tz: u32 = self.bits.trailing_zeros();
        proof {
            vstd::std_specs::bits::axiom_u32_trailing_zeros(self.bits);
            assert forall|j: nat| self@.contains(j) implies tz as nat <= j by {
                if j < tz {
                    let k = j as u32;
                    assert((self.bits >> k) & 1u32 == 0u32);
                }
            }
        }
        Some(tz as usize)
    }
}

} // verus!
