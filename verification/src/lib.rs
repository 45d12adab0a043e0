//! Write-once containers for an owned slice.
//!
//! [`OnceSlicePtr`] is a slot that takes a boxed slice once and owns it from
//! that moment on; [`OnceSlicePtrMetadata`] stores one value of metadata in
//! the same step. A `set` on a slot that is already set fails and hands its
//! argument back untouched. Writers reach a slot one at a time, through
//! `&mut`; readers share it through `&`.

pub mod once_slice;
pub mod once_slice_metadata;
pub mod write_once;

pub use once_slice::OnceSlicePtr;
pub use once_slice_metadata::OnceSlicePtrMetadata;
