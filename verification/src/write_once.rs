//! The write-once rule shared by the containers of this crate.
//!
//! A container is modelled by what it holds: `None` while unset, `Some(v)`
//! once a `set` has won. The functions here say what a `set` attempt does to
//! that state and what a reader is shown, and the lemmas state what follows
//! for whole runs of attempts.

use vstd::prelude::*;

verus! {

/// The state that one `set` attempt leaves behind: an unset container takes
/// what is offered, a set one keeps what it holds.
pub open spec fn after_set<V>(state: Option<V>, offered: V) -> Option<V> {
    match state {
        None => Some(offered),
        Some(_) => state,
    }
}

/// The state after a run of `set` attempts, `offers` being what each attempt
/// offered, in the order in which the attempts took effect.
pub open spec fn after_sets<V>(state: Option<V>, offers: Seq<V>) -> Option<V>
    decreases offers.len(),
{
    if offers.len() == 0 {
        state
    } else {
        after_set(after_sets(state, offers.drop_last()), offers.last())
    }
}

/// Whether attempt `i` of a run succeeds: it does exactly when the attempts
/// before it have left the container unset.
pub open spec fn set_succeeds<V>(state: Option<V>, offers: Seq<V>, i: int) -> bool {
    after_sets(state, offers.take(i)) is None
}

/// What a reader is shown of a state: the elements held, or nothing while
/// the container is unset or holds no element.
pub open spec fn readable<T>(state: Option<Seq<T>>) -> Option<Seq<T>> {
    match state {
        Some(elements) => if elements.len() > 0 {
            Some(elements)
        } else {
            None
        },
        None => None,
    }
}

/// Once a container is set, every later `set` attempt fails and the
/// container keeps what it holds, however many attempts follow.
pub proof fn lemma_set_fails_once_set<V>(state: Option<V>, offers: Seq<V>)
    requires
        state is Some,
    ensures
        after_sets(state, offers) == state,
        forall|i: int| 0 <= i < offers.len() ==> !#[trigger] set_succeeds(state, offers, i),
    decreases offers.len(),
{
    if offers.len() > 0 {
        lemma_set_fails_once_set(state, offers.drop_last());
    }
    assert forall|i: int| 0 <= i < offers.len() implies !#[trigger] set_succeeds(
        state,
        offers,
        i,
    ) by {
        lemma_set_fails_once_set(state, offers.take(i));
    }
}

/// Of one or more `set` attempts on an unset container, whatever the order
/// in which they take effect, exactly one succeeds: the first. The container
/// ends up holding what that attempt offered.
pub proof fn lemma_exactly_one_set_succeeds<V>(offers: Seq<V>)
    requires
        offers.len() >= 1,
    ensures
        after_sets(None::<V>, offers) == Some(offers[0]),
        forall|i: int|
            0 <= i < offers.len() ==> (#[trigger] set_succeeds(None::<V>, offers, i) <==> i == 0),
    decreases offers.len(),
{
    if offers.len() > 1 {
        lemma_exactly_one_set_succeeds(offers.drop_last());
    } else {
        assert(after_sets(None::<V>, offers.drop_last()) == None::<V>);
    }
    assert forall|i: int| 0 <= i < offers.len() implies (#[trigger] set_succeeds(
        None::<V>,
        offers,
        i,
    ) <==> i == 0) by {
        if i > 0 {
            lemma_exactly_one_set_succeeds(offers.take(i));
        }
    }
}

/// A container that was set by a non-empty offer shows its readers exactly
/// that offer, with its length and its elements, whatever attempts follow.
pub proof fn lemma_winner_is_read<T>(offers: Seq<Seq<T>>)
    requires
        offers.len() >= 1,
        offers[0].len() > 0,
    ensures
        readable(after_sets(None::<Seq<T>>, offers)) == Some(offers[0]),
{
    lemma_exactly_one_set_succeeds(offers);
}

} // verus!
