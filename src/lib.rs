//! Client library for a streaming-radio notification feed: message
//! classification, session state and the album-art cache layout.
use vstd::prelude::*;

pub mod cache;
pub mod message;
pub mod session;
pub mod text;

verus! {

/// Sum of two sizes; the caller guarantees that it fits.
pub fn add(left: usize, right: usize) -> (r: usize)
    requires
        left + right <= usize::MAX,
    ensures
        r == left + right,
{
    left + right
}

/// Entry point of the connection driver. It decides nothing: the transport
/// is run by the application, which feeds frames to the classifier.
pub fn connect() -> (r: ())
    ensures
        r == (),
{
}

} // verus!
