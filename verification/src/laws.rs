//! Laws of the escrow's lifecycle, stated and proved over the model
//! transitions that the executable operations are specified against:
//! dense sequential identifiers, the one-time lazy binding of the
//! fee-collector slot, the one-time release guarantee, and the atomicity of
//! settlement.

use vstd::prelude::*;
use crate::order::{
    AccountId, EscrowError, Identity, OrderId, Timestamp, TokenId, TransferOutcome,
};
use crate::escrow::{create_post, create_result, EscrowModel};
use crate::release::{release_check, settle_post, settle_result};

verus! {

/// Creation hands out identifiers 0, 1, 2, … in call order, with no gaps or
/// repeats: a creation succeeds exactly when the token is not the null
/// sentinel; a successful creation returns exactly the number of orders
/// created so far and grows that number by one; and a failed creation
/// changes nothing. Along any sequence of calls the successful ones
/// therefore return the dense, strictly increasing identifiers from zero.
pub proof fn lemma_created_ids_sequential(
    m: EscrowModel,
    token: TokenId,
    caller: AccountId,
    now: Timestamp,
)
    requires
        m.wf(),
    ensures
        create_result(m, token, caller) is Ok <==> token != Identity::spec_null(),
        create_result(m, token, caller) is Ok ==> create_result(
            m,
            token,
            caller,
        )->Ok_0.order_id == m.orders.len(),
        create_result(m, token, caller) is Ok ==> create_post(
            m,
            token,
            caller,
            now,
        ).orders.len() == m.orders.len() + 1,
        create_result(m, token, caller) is Err ==> create_post(m, token, caller, now) == m,
{
}

/// A creation request naming the null token always fails with
/// `InvalidArgument` and has no effect at all: the identifier counter does
/// not advance, the fee-collector slot is not touched, and no order record
/// changes.
pub proof fn lemma_null_token_rejected(
    m: EscrowModel,
    caller: AccountId,
    now: Timestamp,
)
    ensures
        create_result(m, Identity::spec_null(), caller) == Err::<
            crate::order::OrderCreated,
            EscrowError,
        >(EscrowError::InvalidArgument),
        create_post(m, Identity::spec_null(), caller, now) == m,
{
}

/// The fee-collector slot is bound lazily, exactly once: it starts unset, the
/// first successful creation binds it to that creator's identity, and once it
/// holds a non-null identity no later call — by any identity, successful or
/// not — moves it. (Should the first creator be the null identity itself, the
/// slot is indistinguishable from unset and the next creator binds it.)
pub proof fn lemma_fee_collector_bound_once(
    m: EscrowModel,
    token: TokenId,
    caller: AccountId,
    now: Timestamp,
)
    requires
        m.wf(),
    ensures
        m.orders.len() == 0 ==> m.fee_collector == Identity::spec_null(),
        m.fee_collector == Identity::spec_null() && token != Identity::spec_null() ==> create_post(
            m,
            token,
            caller,
            now,
        ).fee_collector == caller,
        m.fee_collector != Identity::spec_null() ==> create_post(
            m,
            token,
            caller,
            now,
        ).fee_collector == m.fee_collector,
        create_result(m, token, caller) is Err ==> create_post(
            m,
            token,
            caller,
            now,
        ).fee_collector == m.fee_collector,
{
}

/// A release request from the designated authority that names an identifier
/// never created fails with `OrderNotFound`, at validation and at commit
/// alike, and settlement then changes nothing. (A request from any other
/// caller fails earlier, with `Unauthorized`.)
pub proof fn lemma_unknown_order_not_released(
    m: EscrowModel,
    order_id: OrderId,
    outcome_approved: bool,
    outcome: TransferOutcome,
)
    requires
        m.wf(),
        m.orders.len() <= order_id,
    ensures
        release_check(m, order_id, outcome_approved, m.release_authority) == Err::<
            crate::order::TransferRequest,
            EscrowError,
        >(EscrowError::OrderNotFound),
        settle_result(m, order_id, m.release_authority, outcome) == Err::<
            (),
            EscrowError,
        >(EscrowError::OrderNotFound),
        settle_post(m, order_id, m.release_authority, outcome) == m,
{
}

/// A non-approved outcome is always rejected, never recorded: on an existing,
/// unreleased order the authority's release request with the outcome flag
/// false fails with `OutcomeNotApproved`, no transfer is requested, and —
/// validation producing no new state — the order's released flag stays false.
pub proof fn lemma_not_approved_rejected(m: EscrowModel, order_id: OrderId)
    requires
        m.wf(),
        m.order_exists(order_id),
        !m.order_at(order_id).released,
    ensures
        release_check(m, order_id, false, m.release_authority) == Err::<
            crate::order::TransferRequest,
            EscrowError,
        >(EscrowError::OutcomeNotApproved),
{
}

/// Settlement is all-or-nothing, and success is owed on exactly one
/// condition: a commit succeeds if and only if the caller is the designated
/// authority, the order exists and is unreleased, and the transfer completed
/// reporting success; every failing commit leaves the whole escrow state
/// untouched, so a failed transfer never strands a released-but-unpaid
/// order.
pub proof fn lemma_settlement_atomic(
    m: EscrowModel,
    order_id: OrderId,
    caller: AccountId,
    outcome: TransferOutcome,
)
    ensures
        settle_result(m, order_id, caller, outcome) is Ok <==> caller == m.release_authority
            && m.order_exists(order_id) && !m.order_at(order_id).released && outcome
            == TransferOutcome::Returned(true),
        settle_result(m, order_id, caller, outcome) is Err ==> settle_post(
            m,
            order_id,
            caller,
            outcome,
        ) == m,
{
}

/// Release happens exactly once: a successful commit finds the order
/// unreleased and flips its flag to true, moving nothing else, and on the
/// state it leaves behind every further release attempt by the authority —
/// validation or commit, whatever the flag or the transfer outcome — fails
/// with `AlreadyReleased` and changes nothing.
pub proof fn lemma_release_exactly_once(
    m: EscrowModel,
    order_id: OrderId,
    caller: AccountId,
    outcome_approved: bool,
    outcome: TransferOutcome,
)
    requires
        m.wf(),
        settle_result(m, order_id, caller, TransferOutcome::Returned(true)) is Ok,
    ensures
        !m.order_at(order_id).released,
        settle_post(m, order_id, caller, TransferOutcome::Returned(true)).order_at(
            order_id,
        ).released,
        release_check(
            settle_post(m, order_id, caller, TransferOutcome::Returned(true)),
            order_id,
            outcome_approved,
            m.release_authority,
        ) == Err::<crate::order::TransferRequest, EscrowError>(EscrowError::AlreadyReleased),
        settle_result(
            settle_post(m, order_id, caller, TransferOutcome::Returned(true)),
            order_id,
            m.release_authority,
            outcome,
        ) == Err::<(), EscrowError>(EscrowError::AlreadyReleased),
        settle_post(
            settle_post(m, order_id, caller, TransferOutcome::Returned(true)),
            order_id,
            m.release_authority,
            outcome,
        ) == settle_post(m, order_id, caller, TransferOutcome::Returned(true)),
{
}

/// An order's facts are write-once: creation never touches an existing
/// record, and settlement neither adds nor removes records and changes at
/// most the one released flag — every order's token, buyer, amount and
/// creation time survive both transitions.
pub proof fn lemma_order_facts_immutable(
    m: EscrowModel,
    any_id: OrderId,
    token: TokenId,
    caller: AccountId,
    now: Timestamp,
    order_id: OrderId,
    settler: AccountId,
    outcome: TransferOutcome,
)
    ensures
        (any_id as int) < m.orders.len() ==> create_post(m, token, caller, now).order_at(any_id)
            == m.order_at(any_id),
        settle_post(m, order_id, settler, outcome).orders.len() == m.orders.len(),
        settle_post(m, order_id, settler, outcome).order_at(any_id).token == m.order_at(
            any_id,
        ).token,
        settle_post(m, order_id, settler, outcome).order_at(any_id).buyer == m.order_at(
            any_id,
        ).buyer,
        settle_post(m, order_id, settler, outcome).order_at(any_id).amount == m.order_at(
            any_id,
        ).amount,
        settle_post(m, order_id, settler, outcome).order_at(any_id).created_at == m.order_at(
            any_id,
        ).created_at,
        any_id != order_id ==> settle_post(m, order_id, settler, outcome).order_at(any_id)
            == m.order_at(any_id),
{
}

/// A released order is terminal: neither a creation (which only appends a
/// fresh, unreleased record) nor any settlement reverts a released flag to
/// false, on any order.
pub proof fn lemma_released_is_terminal(
    m: EscrowModel,
    any_id: OrderId,
    token: TokenId,
    caller: AccountId,
    now: Timestamp,
    order_id: OrderId,
    settler: AccountId,
    outcome: TransferOutcome,
)
    requires
        m.order_at(any_id).released,
    ensures
        create_post(m, token, caller, now).order_at(any_id).released,
        settle_post(m, order_id, settler, outcome).order_at(any_id).released,
{
}

} // verus!
