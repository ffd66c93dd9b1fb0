//! The Order Registry: the shared escrow state, identifier allocation, and
//! persistence of immutable order facts.

use vstd::prelude::*;
use crate::order::{
    absent_order, AccountId, EscrowError, Identity, Order, OrderCreated, OrderId, Timestamp,
    TokenId, FIXED_AMOUNT,
};

verus! {

/// The mathematical model of the whole escrow state: the designated release
/// authority, the lazily bound fee-collector slot, and the order store as a
/// sequence indexed by order identifier. The next identifier to allocate is
/// the length of the sequence, so identifiers are dense from zero by
/// construction.
#[verifier::ext_equal]
pub struct EscrowModel {
    pub release_authority: AccountId,
    pub fee_collector: AccountId,
    pub orders: Seq<Order>,
}

impl EscrowModel {
    /// The record stored under `order_id`, or the zero record if that
    /// identifier was never allocated. Existence is judged by a positive
    /// amount, exactly as the store does.
    pub open spec fn order_at(self, order_id: OrderId) -> Order {
        if (order_id as int) < self.orders.len() {
            self.orders[order_id as int]
        } else {
            absent_order()
        }
    }

    /// An order exists exactly when its stored amount is positive; absent
    /// identifiers report the zero record.
    pub open spec fn order_exists(self, order_id: OrderId) -> bool {
        self.order_at(order_id).amount > 0
    }

    /// Well-formedness of the escrow state: every stored order escrows the
    /// fixed positive amount over a non-null token, identifiers fit the
    /// machine word, and the fee-collector slot is unset until the first
    /// order exists.
    pub open spec fn wf(self) -> bool {
        &&& self.orders.len() <= u64::MAX
        &&& forall|i: int|
            0 <= i < self.orders.len() ==> (#[trigger] self.orders[i]).amount == FIXED_AMOUNT
                && self.orders[i].token != Identity::spec_null()
        &&& self.orders.len() == 0 ==> self.fee_collector == Identity::spec_null()
    }
}

/// What a creation request returns: a notification describing the new order,
/// or `InvalidArgument` for the null token. A successful creation is owed for
/// every non-null token; the allocated identifier is the number of orders
/// created so far.
pub open spec fn create_result(
    m: EscrowModel,
    token: TokenId,
    caller: AccountId,
) -> Result<OrderCreated, EscrowError> {
    if token == Identity::spec_null() {
        Err(EscrowError::InvalidArgument)
    } else {
        Ok(
            OrderCreated {
                order_id: m.orders.len() as u64,
                buyer: caller,
                token: token,
                amount: FIXED_AMOUNT,
            },
        )
    }
}

/// The escrow state after a creation request: unchanged on failure; on
/// success one new record is appended, the fee-collector slot is bound to
/// the caller if it was unset, and nothing else moves.
pub open spec fn create_post(
    m: EscrowModel,
    token: TokenId,
    caller: AccountId,
    now: Timestamp,
) -> EscrowModel {
    if token == Identity::spec_null() {
        m
    } else {
        EscrowModel {
            release_authority: m.release_authority,
            fee_collector: if m.fee_collector == Identity::spec_null() {
                caller
            } else {
                m.fee_collector
            },
            orders: m.orders.push(
                Order {
                    token: token,
                    buyer: caller,
                    amount: FIXED_AMOUNT,
                    released: false,
                    created_at: now,
                },
            ),
        }
    }
}

/// The escrow state held by this core: one designated release authority
/// fixed at construction, the fee-collector slot, and the order store.
pub struct Escrow {
    pub release_authority: AccountId,
    pub fee_collector: AccountId,
    pub orders: Vec<Order>,
}

impl View for Escrow {
    type V = EscrowModel;

    open spec fn view(&self) -> EscrowModel {
        EscrowModel {
            release_authority: self.release_authority,
            fee_collector: self.fee_collector,
            orders: self.orders@,
        }
    }
}

impl Escrow {
    /// A fresh escrow: no orders, the fee-collector slot unset, the given
    /// identity designated as the release authority for its whole lifetime.
    pub fn new(release_authority: AccountId) -> (e: Escrow)
        ensures
            e@.wf(),
            e@.release_authority == release_authority,
            e@.fee_collector == Identity::spec_null(),
            e@.orders.len() == 0,
    {
        Escrow { release_authority, fee_collector: Identity::null(), orders: Vec::new() }
    }

    /// The fee-collector slot: the null sentinel until the first successful
    /// creation binds it.
    pub fn fee_collector(&self) -> (r: AccountId)
        ensures
            r == self@.fee_collector,
    {
        self.fee_collector
    }

    /// The identifier the next successful creation will allocate, which is
    /// also how many orders have been created so far.
    pub fn next_order_id(&self) -> (r: OrderId)
        ensures
            r as nat == self@.orders.len(),
    {
        self.orders.len() as u64
    }

    /// The designated release authority, fixed at construction.
    pub fn release_authority(&self) -> (r: AccountId)
        ensures
            r == self@.release_authority,
    {
        self.release_authority
    }

    /// Read an order record; an identifier that was never allocated reports
    /// the zero record, whose amount is not positive.
    pub fn get_order(&self, order_id: OrderId) -> (o: Order)
        ensures
            o == self@.order_at(order_id),
    {
        if order_id < self.orders.len() as u64 {
            self.orders[order_id as usize]
        } else {
            Order {
                token: Identity::null(),
                buyer: Identity::null(),
                amount: 0,
                released: false,
                created_at: 0,
            }
        }
    }

    /// Register a new order for `token`, created by `caller` at host time
    /// `now`. Rejects the null token with `InvalidArgument` and then changes
    /// nothing; otherwise binds the fee-collector slot to `caller` if it was
    /// unset, appends the record under the next dense identifier, and
    /// returns the notification to raise.
    pub fn create_order(
        &mut self,
        token: TokenId,
        caller: AccountId,
        now: Timestamp,
    ) -> (r: Result<OrderCreated, EscrowError>)
        requires
            old(self)@.wf(),
            old(self)@.orders.len() < u64::MAX,
        ensures
            final(self)@.wf(),
            r == create_result(old(self)@, token, caller),
            final(self)@ == create_post(old(self)@, token, caller, now),
    {
        if token.is_null() {
            return Err(EscrowError::InvalidArgument);
        }
        if self.fee_collector.is_null() {
            self.fee_collector = caller;
        }
        let order_id: u64 = self.orders.len() as u64;
        let record = Order {
            token,
            buyer: caller,
            amount: FIXED_AMOUNT,
            released: false,
            created_at: now,
        };
        self.orders.push(record);
        proof {
            assert(self@ =~= create_post(old(self)@, token, caller, now));
        }
        Ok(OrderCreated { order_id, buyer: caller, token, amount: FIXED_AMOUNT })
    }
}

} // verus!
