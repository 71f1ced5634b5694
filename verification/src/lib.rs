//! Verified accessor layer for named locations in an HDF5 store.
//!
//! A named location (file, group, dataset, named datatype or attribute) is
//! identified by a non-negative handle in the native library's registry.
//! This crate holds the logic of the accessor layer that can be checked:
//! translating native return codes into typed errors, marshaling text to and
//! from the C string convention, and the masking policies that turn a failed
//! or empty query into an empty name or an absent comment.  The calls into
//! the native library themselves are unverified glue that lives outside this
//! crate and hands plain values in and out.

pub mod error;
pub mod location;
pub mod marshal;
