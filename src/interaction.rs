//! Which bodies act on which during force summation.

use vstd::prelude::*;

verus! {

/// The indices of the bodies whose force is summed for body `index` in a
/// world of `count` bodies: every other body, in collection order.
pub open spec fn partners_of(count: nat, index: nat) -> Seq<nat>
    recommends
        index < count,
{
    Seq::new((count - 1) as nat, |k: int| if k < index { k as nat } else { (k + 1) as nat })
}

/// Lists, in collection order, the bodies that act on body `index`: all of
/// `0..count` but `index` itself.
pub fn interaction_partners(count: usize, index: usize) -> (r: Vec<usize>)
    requires
        index < count,
    ensures
        r@.len() == count - 1,
        forall|k: int| 0 <= k < r@.len() ==> r@[k] as nat == partners_of(count as nat, index as nat)[k],
{
    let mut r: Vec<usize> = Vec::new();
    let mut j: usize = 0;
    while j < count
        invariant
            j <= count,
            index < count,
            r@.len() == if j <= index { j as int } else { j - 1 },
            forall|k: int| 0 <= k < r@.len() ==> r@[k] == if k < index { k } else { k + 1 },
        decreases count - j,
    {
        if j != index {
            r.push(j);
        }
        j = j + 1;
    }
    r
}

/// Force summation never pairs a body with itself, and pairs it with every
/// other body exactly once, in collection order.
pub proof fn lemma_partners_exclude_self(count: nat, index: nat)
    requires
        index < count,
    ensures
        !partners_of(count, index).contains(index),
        forall|j: nat| j < count && j != index ==> partners_of(count, index).contains(j),
        forall|a: int, b: int|
            0 <= a < b < partners_of(count, index).len() ==> partners_of(count, index)[a]
                < partners_of(count, index)[b],
{
    let p = partners_of(count, index);
    assert forall|j: nat| j < count && j != index implies p.contains(j) by {
        let k: int = if j < index { j as int } else { j - 1 };
        assert(p[k] == j);
    }
}

/// In a world of a single body, that body has nothing acting on it.
pub proof fn lemma_single_body_feels_nothing()
    ensures
        partners_of(1, 0) == Seq::<nat>::empty(),
{
    assert(partners_of(1, 0) =~= Seq::<nat>::empty());
}

} // verus!
