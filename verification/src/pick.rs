//! The picking engine: of the handles that the pointer ray hits, the nearest.
//!
//! Each handle reports the distance along the ray at which it is hit, or
//! nothing. The hits are taken in the order in which the handles are defined.
//! The first hit is the first candidate, and a later hit replaces the
//! candidate only where its distance is less than the candidate's. A distance
//! that is equal to the candidate's, or cannot be compared with it because one
//! of them is a NaN, leaves the candidate in place.

use crate::scalar::Scalar;
use vstd::prelude::*;

verus! {

/// Whether the hits say that handle `i` is hit.
pub open spec fn hit(hits: Seq<Option<Scalar>>, i: int) -> bool {
    0 <= i < hits.len() && hits[i] is Some
}

/// The index of the hit that wins.
pub open spec fn nearest(hits: Seq<Option<Scalar>>) -> Option<int>
    decreases hits.len(),
{
    if hits.len() == 0 {
        None
    } else {
        let last = hits.len() - 1;
        let candidate = nearest(hits.drop_last());
        match (hits[last], candidate) {
            (None, _) => candidate,
            (Some(_), None) => Some(last),
            (Some(d), Some(c)) => if d.lt(hits[c].unwrap()) {
                Some(last)
            } else {
                candidate
            },
        }
    }
}

/// Picks the nearest hit: its index and its distance, or `None` where nothing
/// is hit.
pub fn pick(hits: &Vec<Option<Scalar>>) -> (picked: Option<(usize, Scalar)>)
    ensures
        picked.is_some() == nearest(hits@).is_some(),
        picked matches Some((i, d)) ==> nearest(hits@) == Some(i as int) && hits@[i as int]
            == Some(d),
{
    pick_among(hits, hits.len())
}

/// Picks the nearest of the first `n` hits, or of all where there are fewer.
pub fn pick_among(hits: &Vec<Option<Scalar>>, n: usize) -> (picked: Option<(usize, Scalar)>)
    ensures
        picked.is_some() == nearest(first_hits(hits@, n as int)).is_some(),
        picked matches Some((i, d)) ==> nearest(first_hits(hits@, n as int)) == Some(i as int)
            && i < n && i < hits@.len() && hits@[i as int] == Some(d),
{
    let end: usize = if n < hits.len() {
        n
    } else {
        hits.len()
    };
    let mut best: Option<(usize, Scalar)> = None;
    let mut k: usize = 0;
    while k < end
        invariant
            k <= end <= hits.len(),
            end <= n,
            end == first_hits(hits@, n as int).len(),
            best.is_some() == nearest(hits@.take(k as int)).is_some(),
            best matches Some((i, d)) ==> nearest(hits@.take(k as int)) == Some(i as int) && i < k
                && hits@[i as int] == Some(d),
        decreases end - k,
    {
        proof {
            let next = hits@.take(k + 1);
            assert(next.drop_last() =~= hits@.take(k as int));
            assert(next[k as int] == hits@[k as int]);
            if let Some((i, d)) = best {
                assert(next[i as int] == hits@[i as int]);
            }
        }
        match hits[k] {
            None => {},
            Some(d) => {
                match best {
                    None => {
                        best = Some((k, d));
                    },
                    Some((_, c)) => {
                        if d.less_than(&c) {
                            best = Some((k, d));
                        }
                    },
                }
            },
        }
        k = k + 1;
    }
    proof {
        assert(hits@.take(end as int) =~= first_hits(hits@, n as int));
    }
    best
}

/// The first `n` hits, or all of them where there are fewer, or none where `n`
/// is negative.
pub open spec fn first_hits(hits: Seq<Option<Scalar>>, n: int) -> Seq<Option<Scalar>> {
    if n <= 0 {
        Seq::empty()
    } else if n < hits.len() {
        hits.take(n)
    } else {
        hits
    }
}

/// The winner is one of the hits, and there is a winner exactly when
/// something is hit.
pub proof fn lemma_nearest_is_a_hit(hits: Seq<Option<Scalar>>)
    ensures
        nearest(hits) matches Some(i) ==> hit(hits, i),
        nearest(hits) is None <==> forall|j: int| !hit(hits, j),
    decreases hits.len(),
{
    if hits.len() > 0 {
        let front = hits.drop_last();
        lemma_nearest_is_a_hit(front);
        assert(forall|j: int| hit(front, j) ==> hit(hits, j));
        if nearest(hits) is None {
            assert(hits[hits.len() - 1] is None);
            assert forall|j: int| !hit(hits, j) by {
                if hit(hits, j) {
                    assert(hit(front, j));
                }
            }
        } else {
            let i = nearest(hits).unwrap();
            assert(hit(hits, i));
        }
    }
}

/// The distance of hit `i`.
pub open spec fn distance(hits: Seq<Option<Scalar>>, i: int) -> Scalar
    recommends
        hit(hits, i),
{
    hits[i].unwrap()
}

/// No later hit is nearer than the winner, and the winner is nearer than
/// every earlier hit whose distance is a number.
pub proof fn lemma_nearest_is_nearest(hits: Seq<Option<Scalar>>)
    ensures
        nearest(hits) matches Some(i) ==> {
            &&& hit(hits, i)
            &&& forall|j: int| i < j && hit(hits, j) ==> !distance(hits, j).lt(distance(hits, i))
            &&& forall|j: int|
                j < i && hit(hits, j) && !distance(hits, j).nan() ==> distance(hits, i).lt(
                    distance(hits, j),
                )
        },
    decreases hits.len(),
{
    if hits.len() > 0 {
        let last = hits.len() - 1;
        let front = hits.drop_last();
        lemma_nearest_is_nearest(front);
        lemma_nearest_is_a_hit(front);
        lemma_nearest_is_a_hit(hits);
        assert(forall|j: int| j < last ==> hit(front, j) == hit(hits, j));
        assert(forall|j: int| hit(front, j) ==> distance(front, j) == distance(hits, j));
        match nearest(hits) {
            None => {},
            Some(i) => {
                assert forall|j: int| i < j && hit(hits, j) implies !distance(hits, j).lt(
                    distance(hits, i),
                ) by {
                    if j < last {
                        assert(hit(front, j));
                    }
                }
                assert forall|j: int|
                    j < i && hit(hits, j) && !distance(hits, j).nan() implies distance(hits, i).lt(
                    distance(hits, j),
                ) by {
                    assert(hit(front, j));
                    if i == last {
                        let c = nearest(front).unwrap();
                        assert(hit(front, c));
                        assert(distance(hits, i).lt(distance(hits, c)));
                    }
                }
            },
        }
    }
}

/// A NaN wins only as the first hit, and as the first hit it always wins.
pub proof fn lemma_nan_wins_only_first(hits: Seq<Option<Scalar>>)
    ensures
        nearest(hits) matches Some(i) ==> (distance(hits, i).nan() ==> forall|j: int|
            j < i ==> !hit(hits, j)),
        forall|f: int|
            hit(hits, f) && distance(hits, f).nan() && (forall|j: int| j < f ==> !hit(hits, j))
                ==> nearest(hits) == Some(f),
    decreases hits.len(),
{
    if hits.len() > 0 {
        let last = hits.len() - 1;
        let front = hits.drop_last();
        lemma_nan_wins_only_first(front);
        lemma_nearest_is_a_hit(front);
        lemma_nearest_is_a_hit(hits);
        assert(forall|j: int| j < last ==> hit(front, j) == hit(hits, j));
        assert(forall|j: int| hit(front, j) ==> distance(front, j) == distance(hits, j));
        if let Some(i) = nearest(hits) {
            if distance(hits, i).nan() {
                assert forall|j: int| j < i implies !hit(hits, j) by {
                    if hit(hits, j) {
                        assert(hit(front, j));
                    }
                }
            }
        }
        assert forall|f: int|
            hit(hits, f) && distance(hits, f).nan() && (forall|j: int|
                j < f ==> !hit(hits, j)) implies nearest(hits) == Some(f) by {
            if f < last {
                assert(hit(front, f));
                assert forall|j: int| j < f implies !hit(front, j) by {
                    assert(!hit(hits, j));
                }
                assert(nearest(front) == Some(f));
            } else {
                assert forall|j: int| !hit(front, j) by {
                    if hit(front, j) {
                        assert(hit(hits, j));
                    }
                }
            }
        }
    }
}

/// A tie goes to the earlier handle: a hit never wins over an earlier hit at
/// an equal distance, and a hit at a NaN distance never wins over any earlier
/// hit.
pub proof fn lemma_tie_goes_to_earlier(hits: Seq<Option<Scalar>>, i: int, j: int)
    requires
        i < j,
        hit(hits, i),
        hit(hits, j),
        distance(hits, i).num_eq(distance(hits, j)) || distance(hits, j).nan(),
    ensures
        nearest(hits) != Some(j),
{
    lemma_nearest_is_nearest(hits);
    lemma_nan_wins_only_first(hits);
}

/// Where no distance is a NaN, the winner is the first of the hits at the
/// least distance, and no other index is.
pub proof fn lemma_nearest_is_first_minimum(hits: Seq<Option<Scalar>>, k: int)
    requires
        forall|j: int| hit(hits, j) ==> !distance(hits, j).nan(),
    ensures
        nearest(hits) == Some(k) <==> {
            &&& hit(hits, k)
            &&& forall|j: int| hit(hits, j) ==> !distance(hits, j).lt(distance(hits, k))
            &&& forall|j: int| j < k && hit(hits, j) ==> distance(hits, k).lt(distance(hits, j))
        },
{
    lemma_nearest_is_nearest(hits);
    lemma_nearest_is_a_hit(hits);
    if nearest(hits) == Some(k) {
        assert forall|j: int| hit(hits, j) implies !distance(hits, j).lt(distance(hits, k)) by {
            if j < k {
                assert(distance(hits, k).lt(distance(hits, j)));
            }
        }
    }
    if hit(hits, k) && (forall|j: int| hit(hits, j) ==> !distance(hits, j).lt(distance(hits, k)))
        && (forall|j: int| j < k && hit(hits, j) ==> distance(hits, k).lt(distance(hits, j))) {
        let i = nearest(hits).unwrap();
        assert(hit(hits, i));
        if i < k {
            assert(distance(hits, k).lt(distance(hits, i)));
        } else if k < i {
            assert(distance(hits, i).lt(distance(hits, k)));
        }
    }
}

/// Picking is a function of the hits alone: where two rays give every handle
/// the same hit, the same handle wins, at the same distance.
pub proof fn lemma_same_hits_same_pick(a: Seq<Option<Scalar>>, b: Seq<Option<Scalar>>)
    requires
        a.len() == b.len(),
        forall|j: int| 0 <= j < a.len() ==> a[j] == b[j],
    ensures
        nearest(a) == nearest(b),
        nearest(a) matches Some(i) ==> distance(a, i) == distance(b, i),
{
    assert(a =~= b);
}

} // verus!
