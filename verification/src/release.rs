//! The Release Authority: the one-time release protocol and the settlement
//! of the escrowed asset.
//!
//! A release is driven in two steps so that it stays atomic even on a host
//! without whole-call rollback: `prepare_release` validates the request and
//! names the asset transfer to attempt, without touching any state; the
//! caller then performs that transfer through the custodied token; and
//! `commit_release` interprets the transfer's outcome, flipping the order's
//! released flag only when the transfer succeeded. A failed transfer thus
//! leaves the order exactly as it was: either the flag flips and the asset
//! moves, or neither happens.

use vstd::prelude::*;
use crate::order::{
    AccountId, EscrowError, Order, OrderId, TransferOutcome, TransferRequest, FIXED_AMOUNT,
};
use crate::escrow::{Escrow, EscrowModel};

verus! {

/// What validating a release request yields, with the checks applied in
/// their protocol order: the caller must be the designated release
/// authority, the order must exist, it must not have been released already,
/// and the outcome must be approved; a non-approved outcome is an error, not
/// a recorded negative resolution. When every check passes, the result names
/// the transfer to perform: the fixed amount of the order's token, out of
/// the escrow's custody, to the order's buyer.
pub open spec fn release_check(
    m: EscrowModel,
    order_id: OrderId,
    outcome_approved: bool,
    caller: AccountId,
) -> Result<TransferRequest, EscrowError> {
    if caller != m.release_authority {
        Err(EscrowError::Unauthorized)
    } else if !m.order_exists(order_id) {
        Err(EscrowError::OrderNotFound)
    } else if m.order_at(order_id).released {
        Err(EscrowError::AlreadyReleased)
    } else if !outcome_approved {
        Err(EscrowError::OutcomeNotApproved)
    } else {
        Ok(
            TransferRequest {
                token: m.order_at(order_id).token,
                to: m.order_at(order_id).buyer,
                amount: FIXED_AMOUNT,
            },
        )
    }
}

/// What committing a release returns, given the outcome of the attempted
/// transfer: the same authorization, existence and one-time checks as
/// validation, then the transfer's verdict — a hard failure of the call is
/// `TransferCallFailed`, a completed call that reported failure is
/// `TransferRejected`, and only a completed call that reported success
/// commits the release.
pub open spec fn settle_result(
    m: EscrowModel,
    order_id: OrderId,
    caller: AccountId,
    outcome: TransferOutcome,
) -> Result<(), EscrowError> {
    if caller != m.release_authority {
        Err(EscrowError::Unauthorized)
    } else if !m.order_exists(order_id) {
        Err(EscrowError::OrderNotFound)
    } else if m.order_at(order_id).released {
        Err(EscrowError::AlreadyReleased)
    } else {
        match outcome {
            TransferOutcome::CallFailed => Err(EscrowError::TransferCallFailed),
            TransferOutcome::Returned(false) => Err(EscrowError::TransferRejected),
            TransferOutcome::Returned(true) => Ok(()),
        }
    }
}

/// The escrow state after committing a release: unchanged unless the commit
/// succeeds, in which case the one order's released flag flips to true and
/// every other fact — its immutable fields, every other order, both scalar
/// slots — stays as it was.
pub open spec fn settle_post(
    m: EscrowModel,
    order_id: OrderId,
    caller: AccountId,
    outcome: TransferOutcome,
) -> EscrowModel {
    if settle_result(m, order_id, caller, outcome) is Ok {
        EscrowModel {
            release_authority: m.release_authority,
            fee_collector: m.fee_collector,
            orders: m.orders.update(
                order_id as int,
                Order { released: true, ..m.orders[order_id as int] },
            ),
        }
    } else {
        m
    }
}

impl Escrow {
    /// Validate a release request without touching any state. Returns the
    /// asset transfer the caller must now attempt, or the first failing
    /// check in protocol order: authorization, existence, one-time release,
    /// approved outcome.
    pub fn prepare_release(
        &self,
        order_id: OrderId,
        outcome_approved: bool,
        caller: AccountId,
    ) -> (r: Result<TransferRequest, EscrowError>)
        ensures
            r == release_check(self@, order_id, outcome_approved, caller),
    {
        if caller != self.release_authority {
            return Err(EscrowError::Unauthorized);
        }
        let record = self.get_order(order_id);
        if !(record.amount > 0) {
            return Err(EscrowError::OrderNotFound);
        }
        if record.released {
            return Err(EscrowError::AlreadyReleased);
        }
        if !outcome_approved {
            return Err(EscrowError::OutcomeNotApproved);
        }
        Ok(TransferRequest { token: record.token, to: record.buyer, amount: FIXED_AMOUNT })
    }

    /// Commit a release given the outcome of the transfer that
    /// `prepare_release` named. Re-applies the authorization, existence and
    /// one-time checks, then marks the order released exactly when the
    /// transfer completed and reported success; on any failure the whole
    /// escrow state is left untouched, so a failed transfer never strands a
    /// released-but-unpaid order.
    pub fn commit_release(
        &mut self,
        order_id: OrderId,
        caller: AccountId,
        outcome: TransferOutcome,
    ) -> (r: Result<(), EscrowError>)
        requires
            old(self)@.wf(),
        ensures
            final(self)@.wf(),
            r == settle_result(old(self)@, order_id, caller, outcome),
            final(self)@ == settle_post(old(self)@, order_id, caller, outcome),
    {
        if caller != self.release_authority {
            return Err(EscrowError::Unauthorized);
        }
        let record = self.get_order(order_id);
        if !(record.amount > 0) {
            return Err(EscrowError::OrderNotFound);
        }
        if record.released {
            return Err(EscrowError::AlreadyReleased);
        }
        match outcome {
            TransferOutcome::CallFailed => Err(EscrowError::TransferCallFailed),
            TransferOutcome::Returned(false) => Err(EscrowError::TransferRejected),
            TransferOutcome::Returned(true) => {
                // An existing order's identifier indexes the store, and the
                // store's physical length witnesses that the index fits usize.
                let _stored: usize = self.orders.len();
                proof {
                    assert((order_id as int) < old(self)@.orders.len());
                }
                let index: usize = order_id as usize;
                let released = Order {
                    token: record.token,
                    buyer: record.buyer,
                    amount: record.amount,
                    released: true,
                    created_at: record.created_at,
                };
                self.orders.set(index, released);
                proof {
                    assert(self@ =~= settle_post(old(self)@, order_id, caller, outcome));
                }
                Ok(())
            },
        }
    }
}

} // verus!
