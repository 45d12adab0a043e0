//! A write-once container for an owned slice that carries one value of
//! metadata beside it.

use crate::write_once::{
    after_set, after_sets, lemma_exactly_one_set_succeeds, lemma_set_fails_once_set, readable,
    set_succeeds,
};
use vstd::prelude::*;

verus! {

/// What a [`OnceSlicePtrMetadata`] stands for in contracts.
pub struct SlotWithMetadata<T, M> {
    /// The elements and the metadata that the winning `set` stored together,
    /// or `None` while the slot is unset.
    pub stored: Option<(Seq<T>, M)>,
    /// The readiness signal of the metadata, raised by the winning `set`.
    /// The metadata accessors go by this signal, not by whether a slice can
    /// be read.
    pub metadata_ready: bool,
}

impl<T, M> SlotWithMetadata<T, M> {
    /// The unset slot: nothing stored, metadata not ready.
    pub open spec fn unset() -> Self {
        SlotWithMetadata { stored: None, metadata_ready: false }
    }

    /// The elements stored, if any.
    pub open spec fn slice(self) -> Option<Seq<T>> {
        match self.stored {
            Some(pair) => Some(pair.0),
            None => None,
        }
    }

    /// The metadata as its accessors show it: what is stored, once the
    /// readiness signal is raised.
    pub open spec fn metadata(self) -> Option<M> {
        match self.stored {
            Some(pair) => if self.metadata_ready {
                Some(pair.1)
            } else {
                None
            },
            None => None,
        }
    }

    /// The slot after one `set` attempt. An attempt on an unset slot stores
    /// the pair and raises the readiness signal of the metadata; an attempt
    /// on a set slot leaves the slot as it is.
    pub open spec fn after_set(self, offered: (Seq<T>, M)) -> Self {
        SlotWithMetadata {
            stored: after_set(self.stored, offered),
            metadata_ready: self.metadata_ready || self.stored is None,
        }
    }

    /// The slot after a run of `set` attempts, `offers` being what each
    /// attempt offered, in the order in which the attempts took effect.
    pub open spec fn after_sets(self, offers: Seq<(Seq<T>, M)>) -> Self
        decreases offers.len(),
    {
        if offers.len() == 0 {
            self
        } else {
            self.after_sets(offers.drop_last()).after_set(offers.last())
        }
    }
}

/// A slot for a `[T]` which can be written to only once, together with one
/// value of metadata that is stored by the same `set` as the slice.
///
/// The slice and the metadata are published by one event, the winning
/// `set`, and are read through separate readiness signals. The slice is
/// shown once it is stored and has elements. The metadata has a signal of
/// its own, which the winning `set` raises after it has stored the pair, and
/// the metadata accessors go by that signal alone: metadata stored beside an
/// empty slice is shown, though the slice is not.
pub struct OnceSlicePtrMetadata<T, M> {
    metadata_flag: bool,
    stored: Option<(Box<[T]>, M)>,
}

impl<T, M> View for OnceSlicePtrMetadata<T, M> {
    type V = SlotWithMetadata<T, M>;

    closed spec fn view(&self) -> SlotWithMetadata<T, M> {
        SlotWithMetadata {
            stored: match self.stored {
                Some(pair) => Some((pair.0@, pair.1)),
                None => None,
            },
            metadata_ready: self.metadata_flag,
        }
    }
}

impl<T, M> Default for OnceSlicePtrMetadata<T, M> {
    /// Returns an unset slot.
    fn default() -> (cell: Self)
        ensures
            cell@ == SlotWithMetadata::<T, M>::unset(),
    {
        Self::new()
    }
}

impl<T, M> OnceSlicePtrMetadata<T, M> {
    /// Returns an unset slot.
    pub fn new() -> (cell: Self)
        ensures
            cell@ == SlotWithMetadata::<T, M>::unset(),
    {
        OnceSlicePtrMetadata { metadata_flag: false, stored: None }
    }

    /// Tries to set the slice and the metadata from a pair.
    ///
    /// Returns `Ok(())` if the slot was unset; the slot now owns both parts
    /// of `value`, and the metadata is ready to be read. Returns `Err` with
    /// the given pair, untouched, if the slot was already set; the slot is
    /// left as it was.
    pub fn set(&mut self, value: (Box<[T]>, M)) -> (outcome: Result<(), (Box<[T]>, M)>)
        ensures
            final(self)@ == old(self)@.after_set((value.0@, value.1)),
            outcome is Ok <==> old(self)@.stored is None,
            outcome matches Err(returned) ==> returned == value,
            old(self)@.stored is None ==> final(self)@.metadata() == Some(value.1),
    {
        if self.stored.is_some() {
            Err(value)
        } else {
            self.stored = Some(value);
            self.metadata_flag = true;
            Ok(())
        }
    }

    /// Gets the reference to the underlying slice.
    ///
    /// Returns `None` if the slot is unset, and also if it was set to a
    /// slice of length zero: a slice is shown only once it has elements.
    pub fn get(&self) -> (seen: Option<&[T]>)
        ensures
            match seen {
                Some(slice) => readable(self@.slice()) == Some(slice@),
                None => readable(self@.slice()) is None,
            },
    {
        match &self.stored {
            Some(pair) => {
                if pair.0.len() != 0 {
                    Some(&*pair.0)
                } else {
                    None
                }
            },
            None => None,
        }
    }

    /// Gets the reference to the metadata.
    ///
    /// Returns the metadata that the winning `set` stored, once its
    /// readiness signal is raised, whatever the slice is: also beside an
    /// empty slice. Returns `None` while the slot is unset.
    pub fn get_metadata(&self) -> (seen: Option<&M>)
        ensures
            match seen {
                Some(metadata) => self@.metadata() == Some(*metadata),
                None => self@.metadata() is None,
            },
    {
        if self.metadata_flag {
            match &self.stored {
                Some(pair) => Some(&pair.1),
                None => None,
            }
        } else {
            None
        }
    }

    /// Gets the mutable reference to the underlying slice.
    ///
    /// Returns `None` on the same states as [`get`](Self::get). What the
    /// caller writes through the reference is what the slot holds
    /// afterwards; the metadata and its signal stay as they are.
    pub fn get_mut(&mut self) -> (seen: Option<&mut [T]>)
        ensures
            match seen {
                Some(slice) => {
                    &&& readable(old(self)@.slice()) == Some(slice@)
                    &&& old(self)@.stored matches Some(pair)
                    &&& final(self)@ == (SlotWithMetadata {
                        stored: Some((final(slice)@, pair.1)),
                        metadata_ready: old(self)@.metadata_ready,
                    })
                },
                None => {
                    &&& readable(old(self)@.slice()) is None
                    &&& final(self)@ == old(self)@
                },
            },
    {
        match &mut self.stored {
            Some(pair) => {
                if pair.0.len() != 0 {
                    Some(&mut *pair.0)
                } else {
                    None
                }
            },
            None => None,
        }
    }

    /// Gets the mutable reference to the metadata.
    ///
    /// Returns `None` on the same states as
    /// [`get_metadata`](Self::get_metadata). What the caller writes through
    /// the reference is the metadata that the slot holds afterwards; the
    /// slice and the signal stay as they are.
    pub fn get_mut_metadata(&mut self) -> (seen: Option<&mut M>)
        ensures
            match seen {
                Some(metadata) => {
                    &&& old(self)@.metadata() == Some(*metadata)
                    &&& old(self)@.stored matches Some(pair)
                    &&& final(self)@ == (SlotWithMetadata {
                        stored: Some((pair.0, *final(metadata))),
                        metadata_ready: old(self)@.metadata_ready,
                    })
                },
                None => {
                    &&& old(self)@.metadata() is None
                    &&& final(self)@ == old(self)@
                },
            },
    {
        if self.metadata_flag {
            match &mut self.stored {
                Some(pair) => Some(&mut pair.1),
                None => None,
            }
        } else {
            None
        }
    }
}

/// A run of `set` attempts stores what the write-once rule keeps of the
/// pairs offered, and raises the readiness signal exactly if it was raised
/// before or one of the attempts found the slot unset.
pub proof fn lemma_after_sets_follows_rule<T, M>(
    slot: SlotWithMetadata<T, M>,
    offers: Seq<(Seq<T>, M)>,
)
    ensures
        slot.after_sets(offers).stored == after_sets(slot.stored, offers),
        slot.after_sets(offers).metadata_ready == (slot.metadata_ready || (slot.stored is None
            && offers.len() > 0)),
    decreases offers.len(),
{
    if offers.len() > 0 {
        lemma_after_sets_follows_rule(slot, offers.drop_last());
        if slot.stored is Some {
            lemma_set_fails_once_set(slot.stored, offers.drop_last());
        } else if offers.len() > 1 {
            lemma_exactly_one_set_succeeds(offers.drop_last());
        }
    }
}

/// Of one or more `set` attempts on an unset slot, whatever the order in
/// which they take effect, exactly one succeeds: the first. The slot ends up
/// holding the pair that this attempt offered, with the metadata ready.
pub proof fn lemma_exactly_one_pair_is_stored<T, M>(offers: Seq<(Seq<T>, M)>)
    requires
        offers.len() >= 1,
    ensures
        SlotWithMetadata::<T, M>::unset().after_sets(offers) == (SlotWithMetadata {
            stored: Some(offers.first()),
            metadata_ready: true,
        }),
        forall|i: int|
            0 <= i < offers.len() ==> (#[trigger] set_succeeds(
                SlotWithMetadata::<T, M>::unset().stored,
                offers,
                i,
            ) <==> i == 0),
{
    lemma_after_sets_follows_rule(SlotWithMetadata::<T, M>::unset(), offers);
    lemma_exactly_one_set_succeeds(offers);
}

/// Once a slot holds a pair, every later `set` attempt fails and the slot
/// stays as it is, however many attempts follow.
pub proof fn lemma_set_fails_once_pair_is_stored<T, M>(
    slot: SlotWithMetadata<T, M>,
    offers: Seq<(Seq<T>, M)>,
)
    requires
        slot.stored is Some,
    ensures
        slot.after_sets(offers) == slot,
        forall|i: int| 0 <= i < offers.len() ==> !#[trigger] set_succeeds(slot.stored, offers, i),
{
    lemma_after_sets_follows_rule(slot, offers);
    lemma_set_fails_once_set(slot.stored, offers);
}

/// A slot that was set by a pair with a non-empty slice shows its readers
/// exactly that slice, with its length and its elements, whatever attempts
/// follow.
pub proof fn lemma_winner_is_read_beside_metadata<T, M>(offers: Seq<(Seq<T>, M)>)
    requires
        offers.len() >= 1,
        offers.first().0.len() > 0,
    ensures
        readable(SlotWithMetadata::<T, M>::unset().after_sets(offers).slice()) == Some(
            offers.first().0,
        ),
{
    lemma_exactly_one_pair_is_stored(offers);
}

/// A slot that was set shows its readers exactly the metadata that the
/// winning attempt offered, whatever its slice is and whatever attempts
/// follow.
pub proof fn lemma_winner_metadata_is_read<T, M>(offers: Seq<(Seq<T>, M)>)
    requires
        offers.len() >= 1,
    ensures
        SlotWithMetadata::<T, M>::unset().after_sets(offers).metadata() == Some(offers.first().1),
{
    lemma_exactly_one_pair_is_stored(offers);
}

} // verus!
