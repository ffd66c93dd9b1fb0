//! The data model of the escrow: identities, order records, the creation
//! notification, the failure taxonomy, and the messages exchanged with the
//! asset-transfer collaborator.

use vstd::prelude::*;

verus! {

/// A 160-bit external identity — a party or a fungible-asset type — held as
/// plain integers: the high 32 bits and the low 128 bits. The all-zero value
/// is the null sentinel: an unset identity slot, or the one asset identifier
/// no order may name.
#[derive(PartialEq, Eq, Structural, Clone, Copy, Debug)]
pub struct Identity {
    pub hi: u32,
    pub lo: u128,
}

impl Identity {
    /// The null sentinel identity.
    pub open spec fn spec_null() -> Identity {
        Identity { hi: 0, lo: 0 }
    }

    /// The null sentinel identity.
    pub fn null() -> (r: Identity)
        ensures
            r == Identity::spec_null(),
    {
        Identity { hi: 0, lo: 0 }
    }

    /// Whether this identity is the null sentinel.
    pub fn is_null(&self) -> (r: bool)
        ensures
            r == (*self == Identity::spec_null()),
    {
        self.hi == 0 && self.lo == 0
    }
}

/// Identity of a party: a buyer, a caller, the release authority.
pub type AccountId = Identity;

/// Identifier of a fungible asset type.
pub type TokenId = Identity;

/// A quantity of the escrowed asset.
pub type Amount = u128;

/// A sequentially allocated order identifier.
pub type OrderId = u64;

/// A creation timestamp supplied by the execution host; advisory only.
pub type Timestamp = u64;

/// Quantity escrowed by every order: a protocol-wide constant, never a
/// caller-supplied value.
pub const FIXED_AMOUNT: Amount = 10_000_000;

/// Every order escrows the same fixed amount.
pub fn fixed_amount() -> (r: Amount)
    ensures
        r == FIXED_AMOUNT,
{
    FIXED_AMOUNT
}

/// One escrow record. `token`, `buyer`, `amount` and `created_at` are written
/// once at creation; `released` starts false and flips to true at most once.
/// An order is considered to exist exactly when its `amount` is positive.
#[derive(PartialEq, Eq, Structural, Clone, Copy, Debug)]
pub struct Order {
    pub token: TokenId,
    pub buyer: AccountId,
    pub amount: Amount,
    pub released: bool,
    pub created_at: Timestamp,
}

/// The record reported for an order identifier that was never allocated:
/// all fields zero, so its `amount` is not positive and it does not exist.
pub open spec fn absent_order() -> Order {
    Order {
        token: Identity::spec_null(),
        buyer: Identity::spec_null(),
        amount: 0,
        released: false,
        created_at: 0,
    }
}

/// The notification raised by a successful creation, for the host's event
/// facility: which order came into being, for whom, over which asset.
#[derive(PartialEq, Eq, Structural, Clone, Copy, Debug)]
pub struct OrderCreated {
    pub order_id: OrderId,
    pub buyer: AccountId,
    pub token: TokenId,
    pub amount: Amount,
}

/// Everything an operation of this core can fail with.
#[derive(PartialEq, Eq, Structural, Clone, Copy, Debug)]
pub enum EscrowError {
    /// Malformed input: the null sentinel passed as an order's token.
    InvalidArgument,
    /// The order identifier was never allocated.
    OrderNotFound,
    /// The order was already released; release is one-time.
    AlreadyReleased,
    /// The caller signalled a non-approved outcome; no refund path exists.
    OutcomeNotApproved,
    /// The caller is not the designated release authority.
    Unauthorized,
    /// The asset-transfer collaborator could not be reached or executed.
    TransferCallFailed,
    /// The asset-transfer collaborator executed but reported failure.
    TransferRejected,
}

/// The one asset movement a release asks of the custodied token: pay `amount`
/// units of `token` out of the escrow's own custody to `to`.
#[derive(PartialEq, Eq, Structural, Clone, Copy, Debug)]
pub struct TransferRequest {
    pub token: TokenId,
    pub to: AccountId,
    pub amount: Amount,
}

/// What came of an attempted asset transfer: the collaborator's boolean
/// verdict, or a hard failure of the call itself.
#[derive(PartialEq, Eq, Structural, Clone, Copy, Debug)]
pub enum TransferOutcome {
    /// The transfer call completed and reported this verdict.
    Returned(bool),
    /// The transfer call itself could not be completed.
    CallFailed,
}

} // verus!
