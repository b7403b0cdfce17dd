//! Behaviour shared by every adapter of the gateway's ports.

use vstd::prelude::*;

use crate::errors::{fails_with, ErrorCode, GatewayError};
use crate::text::owned;

verus! {

/// Detail of the error for specialized target operations on an adapter
/// without them.
pub open spec fn specialized_targets_detail() -> Seq<char> {
    "specialized target resources are not implemented by this adapter"@
}

/// The answer of an adapter that does not offer OCI image or web
/// application targets to every operation on them.
pub fn specialized_targets_not_implemented<T>() -> (result: Result<T, GatewayError>)
    ensures
        fails_with(result, ErrorCode::NotImplemented, specialized_targets_detail()),
{
    Err(GatewayError::NotImplemented(owned("specialized target resources are not implemented by this adapter")))
}

} // verus!
