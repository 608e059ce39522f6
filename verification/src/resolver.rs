//! Nearest-hit resolution: which object of a scene a ray meets first.
//!
//! A scene hands over one candidate per object, in scene order: the ray
//! parameter at which the ray meets the object, or nothing where it misses.
//! Only finite parameters greater than zero are hits in front of the ray's
//! origin; the nearest of those wins, and among equally near ones the first
//! in scene order.

use vstd::prelude::*;
use crate::scalar::Scalar;

verus! {

/// Whether a candidate is a hit in front of the ray's origin: a finite
/// number greater than zero.
pub open spec fn visible(candidate: Option<Scalar>) -> bool {
    match candidate {
        Some(t) => t.positive() && t.finite(),
        None => false,
    }
}

/// Whether `winner` is the nearest visible hit among the first `n`
/// candidates: it is visible, no visible candidate is nearer, and every
/// visible candidate before it is strictly farther.
pub open spec fn nearest_among(candidates: Seq<Option<Scalar>>, n: int, winner: int) -> bool {
    &&& 0 <= winner < n <= candidates.len()
    &&& visible(candidates[winner])
    &&& forall|j: int|
        0 <= j < n && visible(#[trigger] candidates[j]) ==> !candidates[j].unwrap().below(
            candidates[winner].unwrap(),
        )
    &&& forall|j: int|
        0 <= j < winner && visible(#[trigger] candidates[j]) ==> candidates[winner].unwrap().below(
            candidates[j].unwrap(),
        )
}

/// Whether none of the first `n` candidates is visible.
pub open spec fn none_visible(candidates: Seq<Option<Scalar>>, n: int) -> bool {
    forall|j: int| 0 <= j < n ==> !visible(#[trigger] candidates[j])
}

/// Whether `winner` is the nearest visible hit of the whole scene.
pub open spec fn nearest(candidates: Seq<Option<Scalar>>, winner: int) -> bool {
    nearest_among(candidates, candidates.len() as int, winner)
}

/// Finds the nearest visible hit of a scene.
///
/// Gives the index of the candidate with the smallest parameter greater than
/// zero, the first such index where several are equally near, and nothing
/// where no candidate is visible. Misses, parameters that are zero or
/// negative, infinity, and patterns that are not numbers never win.
pub fn nearest_hit(candidates: &Vec<Option<Scalar>>) -> (hit: Option<usize>)
    ensures
        match hit {
            Some(winner) => nearest(candidates@, winner as int),
            None => none_visible(candidates@, candidates.len() as int),
        },
{
    let mut best: Option<usize> = None;
    let mut i: usize = 0;
    while i < candidates.len()
        invariant
            i <= candidates.len(),
            match best {
                Some(winner) => nearest_among(candidates@, i as int, winner as int),
                None => none_visible(candidates@, i as int),
            },
        decreases candidates.len() - i,
    {
        match candidates[i] {
            Some(t) => {
                if t.is_positive() && t.is_finite() {
                    match best {
                        Some(winner) => {
                            match candidates[winner] {
                                Some(current) => {
                                    if t.lt(&current) {
                                        best = Some(i);
                                    }
                                },
                                None => {},
                            }
                        },
                        None => {
                            best = Some(i);
                        },
                    }
                }
            },
            None => {},
        }
        i += 1;
    }
    best
}

/// A scene has at most one nearest visible hit.
pub proof fn lemma_nearest_is_unique(candidates: Seq<Option<Scalar>>, a: int, b: int)
    requires
        nearest(candidates, a),
        nearest(candidates, b),
    ensures
        a == b,
{
    if a < b {
        assert(visible(candidates[a]));
        assert(candidates[b].unwrap().below(candidates[a].unwrap()));
    } else if b < a {
        assert(visible(candidates[b]));
        assert(candidates[a].unwrap().below(candidates[b].unwrap()));
    }
}

/// Among the first `n` candidates there is a nearest visible hit as soon as
/// one of them is visible.
pub proof fn lemma_nearest_among_exists(candidates: Seq<Option<Scalar>>, n: int)
    requires
        0 <= n <= candidates.len(),
        !none_visible(candidates, n),
    ensures
        exists|winner: int| nearest_among(candidates, n, winner),
    decreases n,
{
    if n > 0 {
        let last = n - 1;
        if none_visible(candidates, last) {
            assert(visible(candidates[last])) by {
                if !visible(candidates[last]) {
                    assert(none_visible(candidates, n));
                }
            }
            assert(nearest_among(candidates, n, last));
        } else {
            lemma_nearest_among_exists(candidates, last);
            let before = choose|winner: int| nearest_among(candidates, last, winner);
            if visible(candidates[last]) && candidates[last].unwrap().below(
                candidates[before].unwrap(),
            ) {
                assert(nearest_among(candidates, n, last));
            } else {
                assert(nearest_among(candidates, n, before));
            }
        }
    }
}

/// A scene has a nearest visible hit exactly when some candidate is visible.
pub proof fn lemma_nearest_exists_iff_visible(candidates: Seq<Option<Scalar>>)
    ensures
        (exists|winner: int| nearest(candidates, winner)) <==> !none_visible(
            candidates,
            candidates.len() as int,
        ),
{
    if exists|winner: int| nearest(candidates, winner) {
        let winner = choose|winner: int| nearest(candidates, winner);
        assert(visible(candidates[winner]));
    }
    if !none_visible(candidates, candidates.len() as int) {
        lemma_nearest_among_exists(candidates, candidates.len() as int);
        let winner = choose|winner: int| nearest_among(candidates, candidates.len() as int, winner);
        assert(nearest(candidates, winner));
    }
}

} // verus!
