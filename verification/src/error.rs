//! Errors that more than one module reports.
use vstd::prelude::*;

verus! {

/// A bounded sequence has no room for what was to be stored in it.
///
/// Every sequence of this crate has a capacity fixed at compile time. Going
/// over it is reported, never answered by cutting the data short.
#[derive(Debug, Copy, Clone, PartialEq, Eq, Structural)]
pub struct CapacityError;

} // verus!
