//! What can go wrong.
use vstd::prelude::*;

verus! {

#[derive(Clone, Debug, PartialEq, Eq)]
pub enum Error {
    /// The store could not be opened, or a channel failed: why.
    Outside(String),
    /// A value was found for a query that expects no result.
    NoResultExpected,
    /// The time at which a query may be forgotten is out of range.
    ExpireOutOfRange,
}

} // verus!
