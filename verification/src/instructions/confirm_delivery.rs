//! Confirming delivery: the maker's word that the deposit may be released.

use crate::errors::EscrowError;
use crate::state::{Escrow, Identity};
use vstd::prelude::*;

verus! {

/// What a confirmation works on: the caller, who must be the maker, and the
/// record.
#[derive(Clone, Copy, Debug, PartialEq, Eq)]
pub struct ConfirmDelivery {
    /// The caller of the operation.
    pub maker: Identity,
    /// The record to confirm.
    pub escrow: Escrow,
}

/// What a confirmation by `caller` makes of `record`: the record with the
/// confirmation set, or the reason why it is refused.
pub open spec fn confirmed(caller: Identity, record: Escrow) -> Result<Escrow, EscrowError> {
    if caller != record.maker {
        Err(EscrowError::Unauthorized)
    } else if record.executed {
        Err(EscrowError::AlreadyExecuted)
    } else {
        Ok(Escrow { buyer_confirmed: true, ..record })
    }
}

/// Confirms delivery. Only the maker may do so, and only before execution;
/// then the confirmation is set, and nothing else changes. A refusal changes
/// nothing.
pub fn handler(ctx: &mut ConfirmDelivery) -> (outcome: Result<(), EscrowError>)
    ensures
        final(ctx).maker == old(ctx).maker,
        match confirmed(old(ctx).maker, old(ctx).escrow) {
            Ok(record) => outcome.is_ok() && final(ctx).escrow == record,
            Err(e) => outcome == Err::<(), EscrowError>(e) && final(ctx).escrow == old(ctx).escrow,
        },
{
    if ctx.maker != ctx.escrow.maker {
        return Err(EscrowError::Unauthorized);
    }
    if ctx.escrow.executed {
        return Err(EscrowError::AlreadyExecuted);
    }
    ctx.escrow.buyer_confirmed = true;
    Ok(())
}

} // verus!
