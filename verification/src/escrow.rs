//! The one piece of companion-escrow logic that is plain arithmetic: whether
//! a refund is still possible.  The escrow's transfers themselves belong to
//! the ledger collaborator.

use vstd::prelude::*;

verus! {

/// An escrow can be refunded only while its vault still holds assets.
pub fn can_refund(vault_amount: u64) -> (r: bool)
    ensures
        r == (vault_amount > 0),
{
    vault_amount > 0
}

} // verus!
