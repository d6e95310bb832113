//! Bringing the outcomes of independent tasks back into the order in which
//! the tasks were handed out.
//!
//! Each task carries the position it was handed out at, and reports its
//! outcome with that position. The outcomes arrive in the order in which the
//! tasks end, which is any order. Nothing here looks at an outcome: one that
//! is an error keeps its place like any other.

use vstd::prelude::*;
use vstd::set_lib::{lemma_int_range, lemma_subset_equality, set_int_range};

verus! {

/// The positions of `tagged`, in the order of arrival.
pub open spec fn positions<T>(tagged: Seq<(usize, T)>) -> Seq<int> {
    Seq::new(tagged.len(), |j: int| tagged[j].0 as int)
}

/// Every task reported once: the positions are below the number of outcomes,
/// and no position occurs twice.
pub open spec fn is_arrangement<T>(tagged: Seq<(usize, T)>) -> bool {
    &&& forall|j: int| 0 <= j < tagged.len() ==> 0 <= #[trigger] positions(tagged)[j] < tagged.len()
    &&& positions(tagged).no_duplicates()
}

/// `ordered` holds each outcome of `tagged` at the position it was tagged with.
pub open spec fn in_order<T>(tagged: Seq<(usize, T)>, ordered: Seq<T>) -> bool {
    &&& ordered.len() == tagged.len()
    &&& forall|j: int|
        0 <= j < tagged.len() ==> 0 <= #[trigger] positions(tagged)[j] < ordered.len()
            && ordered[positions(tagged)[j]] == tagged[j].1
}

/// Where every task reported once, every position was reported.
pub proof fn lemma_arrangement_covers<T>(tagged: Seq<(usize, T)>, position: int)
    requires
        is_arrangement(tagged),
        0 <= position < tagged.len(),
    ensures
        exists|j: int| 0 <= j < tagged.len() && #[trigger] positions(tagged)[j] == position,
{
    let reported = positions(tagged);
    let all = set_int_range(0, tagged.len() as int);
    reported.unique_seq_to_set();
    lemma_int_range(0, tagged.len() as int);
    assert(reported.to_set().subset_of(all)) by {
        assert forall|p: int| reported.to_set().contains(p) implies all.contains(p) by {
            let j = choose|j: int| 0 <= j < reported.len() && reported[j] == p;
            assert(0 <= positions(tagged)[j] < tagged.len());
        }
    }
    vstd::set_lib::lemma_len_subset(reported.to_set(), all);
    lemma_subset_equality(reported.to_set(), all);
    assert(all.contains(position));
    assert(reported.to_set().contains(position));
    let j = choose|j: int| 0 <= j < reported.len() && reported[j] == position;
    assert(positions(tagged)[j] == position);
}

/// The outcomes of an arrangement have one order only.
pub proof fn lemma_order_is_unique<T>(tagged: Seq<(usize, T)>, first: Seq<T>, second: Seq<T>)
    requires
        is_arrangement(tagged),
        in_order(tagged, first),
        in_order(tagged, second),
    ensures
        first == second,
{
    assert forall|position: int| 0 <= position < first.len() implies first[position]
        == second[position] by {
        lemma_arrangement_covers(tagged, position);
        let j = choose|j: int| 0 <= j < tagged.len() && #[trigger] positions(tagged)[j] == position;
        assert(first[positions(tagged)[j]] == tagged[j].1);
        assert(second[positions(tagged)[j]] == tagged[j].1);
    }
    assert(first =~= second);
}

/// The order of arrival does not matter: if the task at position `i` gave
/// `outcomes[i]`, and every task reported once, then the outcomes put in order
/// are `outcomes`, failures among them in their places.
pub proof fn lemma_arrival_order_is_irrelevant<T>(
    outcomes: Seq<T>,
    tagged: Seq<(usize, T)>,
    ordered: Seq<T>,
)
    requires
        is_arrangement(tagged),
        tagged.len() == outcomes.len(),
        forall|j: int| 0 <= j < tagged.len() ==> (#[trigger] tagged[j]).1 == outcomes[tagged[j].0 as int],
        in_order(tagged, ordered),
    ensures
        ordered == outcomes,
{
    assert forall|j: int| 0 <= j < tagged.len() implies 0 <= #[trigger] positions(tagged)[j]
        < outcomes.len() && outcomes[positions(tagged)[j]] == tagged[j].1 by {
        assert(tagged[j].1 == outcomes[tagged[j].0 as int]);
    }
    lemma_order_is_unique(tagged, ordered, outcomes);
}

/// Puts the outcomes back into the order in which their tasks were handed
/// out: the outcome tagged with position `i` becomes the element `i` of the
/// result, whatever the order of arrival was.
///
/// `None` where the tags are no arrangement: a position is out of range, or
/// two outcomes claim the same position.
pub fn restore_order<T>(tagged: Vec<(usize, T)>) -> (r: Option<Vec<T>>)
    ensures
        match r {
            Some(ordered) => is_arrangement(tagged@) && in_order(tagged@, ordered@),
            None => !is_arrangement(tagged@),
        },
{
    let ghost arrived = tagged@;
    let count = tagged.len();
    let mut slots: Vec<Option<T>> = Vec::new();
    while slots.len() < count
        invariant
            slots.len() <= count,
            forall|i: int| 0 <= i < slots.len() ==> slots[i] is None,
        decreases count - slots.len(),
    {
        slots.push(None);
    }

    let mut pending = tagged;
    while pending.len() > 0
        invariant
            arrived == tagged@,
            count == arrived.len(),
            slots.len() == count,
            pending.len() <= count,
            pending@ == arrived.take(pending.len() as int),
            forall|j: int|
                pending.len() <= j < count ==> 0 <= #[trigger] positions(arrived)[j] < count
                    && slots[positions(arrived)[j]] == Some(arrived[j].1),
            forall|i: int|
                0 <= i < count && (#[trigger] slots[i]) is Some ==> exists|j: int|
                    pending.len() <= j < count && #[trigger] positions(arrived)[j] == i,
            forall|j: int, k: int|
                pending.len() <= j < count && pending.len() <= k < count && j != k ==> positions(
                    arrived,
                )[j] != positions(arrived)[k],
        decreases pending.len(),
    {
        let ghost here = pending.len() - 1;
        let (position, outcome) = pending.pop().unwrap();
        proof {
            assert(arrived[here] == (position, outcome));
            assert(positions(arrived)[here] == position);
        }
        if position >= count {
            return None;
        }
        if slots[position].is_some() {
            proof {
                let other = choose|j: int|
                    here < j < count && #[trigger] positions(arrived)[j] == position;
                assert(positions(arrived)[here] == positions(arrived)[other]);
            }
            return None;
        }
        let ghost before = slots@;
        slots.set(position, Some(outcome));
        proof {
            assert forall|i: int| 0 <= i < count && (#[trigger] slots[i]) is Some implies exists|
                j: int,
            |
                here <= j < count && #[trigger] positions(arrived)[j] == i by {
                if i == position {
                    assert(positions(arrived)[here] == i);
                } else {
                    assert(before[i] is Some);
                    let j = choose|j: int|
                        here < j < count && #[trigger] positions(arrived)[j] == i;
                    assert(positions(arrived)[j] == i);
                }
            }
            assert forall|j: int, k: int|
                here <= j < count && here <= k < count && j != k implies positions(arrived)[j]
                != positions(arrived)[k] by {
                if j == here {
                    if positions(arrived)[k] == position {
                        assert(before[positions(arrived)[k]] == Some(arrived[k].1));
                    }
                } else if k == here {
                    if positions(arrived)[j] == position {
                        assert(before[positions(arrived)[j]] == Some(arrived[j].1));
                    }
                }
            }
            assert(pending@ =~= arrived.take(here));
        }
    }

    proof {
        assert(is_arrangement(arrived));
        assert forall|i: int| 0 <= i < count implies (#[trigger] slots[i]) is Some by {
            lemma_arrangement_covers(arrived, i);
            let j = choose|j: int| 0 <= j < count && #[trigger] positions(arrived)[j] == i;
            assert(slots[positions(arrived)[j]] == Some(arrived[j].1));
        }
    }

    let ghost filled = slots@;
    let mut backwards: Vec<T> = Vec::new();
    while slots.len() > 0
        invariant
            filled.len() == count,
            slots.len() <= count,
            slots@ == filled.take(slots.len() as int),
            forall|i: int| 0 <= i < count ==> (#[trigger] filled[i]) is Some,
            backwards.len() == count - slots.len(),
            forall|i: int|
                0 <= i < backwards.len() ==> Some(#[trigger] backwards[i]) == filled[count - 1 - i],
        decreases slots.len(),
    {
        let ghost here = slots.len() - 1;
        let slot = slots.pop().unwrap();
        proof {
            assert(slot == filled[here]);
            assert(slots@ =~= filled.take(here));
        }
        backwards.push(slot.unwrap());
    }

    let ghost turned = backwards@;
    let ordered = reversed(backwards);
    proof {
        assert forall|j: int| 0 <= j < arrived.len() implies 0 <= #[trigger] positions(arrived)[j]
            < ordered.len() && ordered[positions(arrived)[j]] == arrived[j].1 by {
            let i = positions(arrived)[j];
            assert(filled[i] == Some(arrived[j].1));
            assert(ordered[i] == turned[count - 1 - i]);
            assert(Some(turned[count - 1 - i]) == filled[count - 1 - (count - 1 - i)]);
        }
    }
    Some(ordered)
}

/// The elements of `items` from the last to the first.
fn reversed<T>(items: Vec<T>) -> (turned: Vec<T>)
    ensures
        turned@ == items@.reverse(),
{
    let ghost all = items@;
    let mut rest = items;
    let mut turned: Vec<T> = Vec::new();
    while rest.len() > 0
        invariant
            all == items@,
            rest.len() <= all.len(),
            rest@ == all.take(rest.len() as int),
            turned.len() == all.len() - rest.len(),
            forall|i: int| 0 <= i < turned.len() ==> #[trigger] turned[i] == all[all.len() - 1 - i],
        decreases rest.len(),
    {
        let ghost here = rest.len() - 1;
        let item = rest.pop().unwrap();
        proof {
            assert(item == all[here]);
            assert(rest@ =~= all.take(here));
        }
        turned.push(item);
    }
    proof {
        assert(turned@ =~= all.reverse());
    }
    turned
}

/// The first error of `outcomes`, if there is one.
pub open spec fn first_error<T, E>(outcomes: Seq<Result<T, E>>) -> Option<E>
    decreases outcomes.len(),
{
    if outcomes.len() == 0 {
        None
    } else {
        match first_error(outcomes.drop_last()) {
            Some(err) => Some(err),
            None => match outcomes.last() {
                Ok(_) => None,
                Err(err) => Some(err),
            },
        }
    }
}

/// All outcomes of a batch, or the error that stops it. A batch stops at the
/// first error in the order in which the tasks were handed out, and gives up
/// the outcomes of all other tasks.
pub fn collect_all<T, E>(outcomes: Vec<Result<T, E>>) -> (r: Result<Vec<T>, E>)
    ensures
        match r {
            Ok(values) => first_error(outcomes@) is None && values.len() == outcomes.len()
                && forall|i: int|
                0 <= i < outcomes.len() ==> outcomes[i] == Ok::<T, E>(#[trigger] values[i]),
            Err(err) => first_error(outcomes@) == Some(err),
        },
{
    let ghost all = outcomes@;
    let count = outcomes.len();
    // The outcomes are taken from the end, so an error replaces one found before it.
    let mut pending = outcomes;
    let mut failure: Option<E> = None;
    let mut backwards: Vec<T> = Vec::new();
    while pending.len() > 0
        invariant
            all == outcomes@,
            count == all.len(),
            pending.len() <= count,
            pending@ == all.take(pending.len() as int),
            failure is None ==> backwards.len() == count - pending.len(),
            failure is None ==> forall|i: int|
                0 <= i < backwards.len() ==> all[count - 1 - i] == Ok::<T, E>(#[trigger] backwards[i]),
            first_error(all) == match first_error(pending@) {
                Some(err) => Some(err),
                None => failure,
            },
        decreases pending.len(),
    {
        let ghost here = pending.len() - 1;
        let ghost before = pending@;
        let outcome = pending.pop().unwrap();
        proof {
            assert(outcome == all[here]);
            assert(before.drop_last() =~= pending@);
            assert(pending@ =~= all.take(here));
        }
        match outcome {
            Ok(value) => {
                if failure.is_none() {
                    backwards.push(value);
                }
            },
            Err(err) => {
                failure = Some(err);
            },
        }
    }
    proof {
        assert(pending@ =~= Seq::<Result<T, E>>::empty());
    }
    match failure {
        Some(err) => Err(err),
        None => {
            let ghost turned = backwards@;
            let values = reversed(backwards);
            proof {
                assert forall|i: int| 0 <= i < all.len() implies all[i] == Ok::<T, E>(
                    #[trigger] values[i],
                ) by {
                    assert(values[i] == turned[count - 1 - i]);
                    assert(all[count - 1 - (count - 1 - i)] == Ok::<T, E>(turned[count - 1 - i]));
                }
            }
            Ok(values)
        },
    }
}

} // verus!
