//! A container for one owned slice that can be written only once.

use crate::write_once::{after_set, readable};
use vstd::prelude::*;

verus! {

/// A slot for a `[T]` which can be written to only once.
///
/// The slot starts out unset. The first `set` moves a boxed slice into it,
/// and the slot owns that slice for good: every later `set` fails and hands
/// its argument back. Its view is `None` while it is unset and `Some` of the
/// elements it owns afterwards.
pub struct OnceSlicePtr<T> {
    data: Option<Box<[T]>>,
}

impl<T> View for OnceSlicePtr<T> {
    type V = Option<Seq<T>>;

    closed spec fn view(&self) -> Option<Seq<T>> {
        match self.data {
            Some(owned) => Some(owned@),
            None => None,
        }
    }
}

impl<T> Default for OnceSlicePtr<T> {
    /// Returns an unset [`OnceSlicePtr<T>`].
    fn default() -> (cell: Self)
        ensures
            cell@ is None,
    {
        Self::new()
    }
}

impl<T> OnceSlicePtr<T> {
    /// Returns an unset [`OnceSlicePtr<T>`].
    pub fn new() -> (cell: Self)
        ensures
            cell@ is None,
    {
        OnceSlicePtr { data: None }
    }

    /// Tries to set the slice from a `Box<[T]>`.
    ///
    /// Returns `Ok(())` if the slot was unset; the slot now owns `value`.
    /// Returns `Err` with the given box, untouched, if the slot was already
    /// set; the slot is left as it was.
    pub fn set(&mut self, value: Box<[T]>) -> (outcome: Result<(), Box<[T]>>)
        ensures
            final(self)@ == after_set(old(self)@, value@),
            outcome is Ok <==> old(self)@ is None,
            outcome matches Err(returned) ==> returned == value,
    {
        if self.data.is_some() {
            Err(value)
        } else {
            self.data = Some(value);
            Ok(())
        }
    }

    /// Gets the reference to the underlying slice.
    ///
    /// Returns `None` if the slot is unset, and also if it was set to a
    /// slice of length zero: a slice is shown only once it has elements.
    pub fn get(&self) -> (seen: Option<&[T]>)
        ensures
            match seen {
                Some(slice) => readable(self@) == Some(slice@),
                None => readable(self@) is None,
            },
    {
        match &self.data {
            Some(owned) => {
                if owned.len() != 0 {
                    Some(&**owned)
                } else {
                    None
                }
            },
            None => None,
        }
    }

    /// Gets the mutable reference to the underlying slice.
    ///
    /// Returns `None` on the same states as [`get`](Self::get). What the
    /// caller writes through the reference is what the slot holds
    /// afterwards.
    pub fn get_mut(&mut self) -> (seen: Option<&mut [T]>)
        ensures
            match seen {
                Some(slice) => {
                    &&& readable(old(self)@) == Some(slice@)
                    &&& final(self)@ == Some(final(slice)@)
                },
                None => {
                    &&& readable(old(self)@) is None
                    &&& final(self)@ == old(self)@
                },
            },
    {
        match &mut self.data {
            Some(owned) => {
                if owned.len() != 0 {
                    Some(&mut **owned)
                } else {
                    None
                }
            },
            None => None,
        }
    }
}

} // verus!
