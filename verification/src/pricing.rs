//! The second-price rule: who wins, and what the winner owes.
//!
//! The bids are given in registration order, one place per participant, and
//! a place is empty where the participant has no valid bid. The winner is the
//! first participant to hold the highest bid; the debt is the highest bid
//! among all the others, or nothing where there is no other.

use vstd::prelude::*;

verus! {

/// Whether place `w` holds the highest bid and no earlier place holds as much.
pub open spec fn is_top(bids: Seq<Option<u128>>, w: int) -> bool {
    &&& 0 <= w < bids.len()
    &&& bids[w] is Some
    &&& forall|j: int| 0 <= j < bids.len() && bids[j] is Some ==> bids[j]->0 <= bids[w]->0
    &&& forall|j: int| 0 <= j < w && bids[j] is Some ==> bids[j]->0 < bids[w]->0
}

/// Whether `debt` is the highest bid at a place other than `w`, or zero where
/// every other place is empty.
pub open spec fn is_runner_up(bids: Seq<Option<u128>>, w: int, debt: u128) -> bool {
    &&& forall|j: int| 0 <= j < bids.len() && j != w && bids[j] is Some ==> bids[j]->0 <= debt
    &&& {
        ||| debt == 0 && forall|j: int| 0 <= j < bids.len() && j != w ==> bids[j] is None
        ||| exists|j: int| 0 <= j < bids.len() && j != w && bids[j] == Some(debt)
    }
}

/// Whether no place holds a bid.
pub open spec fn no_bids(bids: Seq<Option<u128>>) -> bool {
    forall|j: int| 0 <= j < bids.len() ==> bids[j] is None
}

/// The outcome of the second-price rule: the winning place and the debt, or
/// nothing where no place holds a bid.
pub open spec fn is_outcome(bids: Seq<Option<u128>>, outcome: Option<(usize, u128)>) -> bool {
    match outcome {
        None => no_bids(bids),
        Some((w, debt)) => is_top(bids, w as int) && is_runner_up(bids, w as int, debt),
    }
}

/// Applies the second-price rule.
pub fn second_price(bids: &Vec<Option<u128>>) -> (outcome: Option<(usize, u128)>)
    ensures
        is_outcome(bids@, outcome),
{
    let mut best: Option<(usize, u128)> = None;
    let mut second: u128 = 0;
    let ghost mut second_at: int = -1;
    let mut i: usize = 0;
    while i < bids.len()
        invariant
            i <= bids@.len(),
            is_outcome(bids@.take(i as int), match best {
                None => None,
                Some((w, _)) => Some((w, second)),
            }),
            match best {
                None => second == 0 && second_at == -1,
                Some((w, top)) => {
                    &&& w < i
                    &&& bids@[w as int] == Some(top)
                    &&& second_at != w
                    &&& -1 <= second_at < i
                    &&& second_at >= 0 ==> bids@[second_at] == Some(second)
                    &&& second_at == -1 ==> second == 0 && forall|j: int|
                        0 <= j < i && j != w ==> bids@[j] is None
                },
            },
        decreases bids@.len() - i,
    {
        let ghost prefix = bids@.take(i as int);
        let ghost next = bids@.take(i + 1);
        assert(forall|j: int| 0 <= j < i ==> next[j] == prefix[j]);
        assert(next[i as int] == bids@[i as int]);
        match bids[i] {
            None => {},
            Some(b) => {
                match best {
                    None => {
                        assert forall|j: int| 0 <= j < i implies bids@[j] is None by {
                            assert(prefix[j] is None);
                        }
                        best = Some((i, b));
                    },
                    Some((w, top)) => {
                        if b > top {
                            second = top;
                            proof {
                                second_at = w as int;
                            }
                            best = Some((i, b));
                        } else if b > second {
                            second = b;
                            proof {
                                second_at = i as int;
                            }
                        } else {
                            proof {
                                if second_at == -1 {
                                    second_at = i as int;
                                }
                            }
                        }
                    },
                }
            },
        }
        proof {
            match best {
                None => {},
                Some((w, _)) => {
                    if second_at >= 0 {
                        assert(next[second_at] == Some(second));
                    }
                },
            }
        }
        i += 1;
    }
    assert(bids@.take(i as int) =~= bids@);
    match best {
        None => None,
        Some((w, _)) => Some((w, second)),
    }
}

/// The second-price rule has one outcome.
pub proof fn lemma_outcome_unique(
    bids: Seq<Option<u128>>,
    a: Option<(usize, u128)>,
    b: Option<(usize, u128)>,
)
    requires
        is_outcome(bids, a),
        is_outcome(bids, b),
    ensures
        a == b,
{
    match (a, b) {
        (Some((wa, da)), Some((wb, db))) => {
            assert(wa == wb) by {
                if wa < wb {
                    assert(bids[wa as int]->0 < bids[wb as int]->0);
                } else if wb < wa {
                    assert(bids[wb as int]->0 < bids[wa as int]->0);
                }
            }
            assert(da == db);
        },
        (Some((wa, _)), None) => {
            assert(bids[wa as int] is None);
        },
        (None, Some((wb, _))) => {
            assert(bids[wb as int] is None);
        },
        (None, None) => {},
    }
}

} // verus!
