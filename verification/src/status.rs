//! Which response statuses count as success.

use vstd::prelude::*;

verus! {

/// The success band: every status from 200 up to 299, and 404 besides.
pub open spec fn is_acceptable(status: u16) -> bool {
    200 <= status < 300 || status == 404
}

/// Tells whether a response with this status is taken as a success.
pub fn acceptable(status: u16) -> (accepted: bool)
    ensures
        accepted == is_acceptable(status),
{
    !(status < 200 || (status >= 300 && status != 404))
}

} // verus!
