//! The HTTP status codes that the updater tells apart.

use vstd::prelude::*;

verus! {

/// The status with which an endpoint says that there is no update.
pub const NO_CONTENT: u16 = 204;

/// Whether a status is one of the success class, 200 to 299.
pub open spec fn success_status(status: u16) -> bool {
    200 <= status < 300
}

/// Whether a status is one of the success class.
pub fn is_success(status: u16) -> (success: bool)
    ensures
        success == success_status(status),
{
    200 <= status && status < 300
}

} // verus!
