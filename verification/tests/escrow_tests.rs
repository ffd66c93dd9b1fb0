use pearscrow::escrow::Escrow;
use pearscrow::order::{
    fixed_amount, EscrowError, Identity, Order, OrderCreated, TransferOutcome, TransferRequest,
    FIXED_AMOUNT,
};

fn ident(lo: u128) -> Identity {
    Identity { hi: 0, lo }
}

fn authority() -> Identity {
    ident(0xA0001)
}

fn buyer_a() -> Identity {
    ident(0xB0001)
}

fn buyer_b() -> Identity {
    ident(0xB0002)
}

fn token_t1() -> Identity {
    ident(0x70001)
}

fn token_t2() -> Identity {
    ident(0x70002)
}

#[test]
fn fixed_amount_is_the_protocol_constant() {
    assert_eq!(FIXED_AMOUNT, 10_000_000);
    assert_eq!(fixed_amount(), 10_000_000);
}

#[test]
fn created_ids_are_dense_and_sequential() {
    let mut e = Escrow::new(authority());
    assert_eq!(e.next_order_id(), 0);
    let first = e.create_order(token_t1(), buyer_a(), 100).unwrap();
    assert_eq!(first.order_id, 0);
    let second = e.create_order(token_t2(), buyer_b(), 101).unwrap();
    assert_eq!(second.order_id, 1);
    // a rejected creation does not advance the counter
    assert_eq!(
        e.create_order(Identity::null(), buyer_a(), 102),
        Err(EscrowError::InvalidArgument)
    );
    assert_eq!(e.next_order_id(), 2);
    let third = e.create_order(token_t1(), buyer_a(), 103).unwrap();
    assert_eq!(third.order_id, 2);
    assert_eq!(e.next_order_id(), 3);
}

#[test]
fn null_token_rejected_without_any_effect() {
    let mut e = Escrow::new(authority());
    assert_eq!(
        e.create_order(Identity::null(), buyer_a(), 100),
        Err(EscrowError::InvalidArgument)
    );
    assert_eq!(e.next_order_id(), 0);
    assert_eq!(e.fee_collector(), Identity::null());
    assert!(e.fee_collector().is_null());
}

#[test]
fn fee_collector_bound_to_first_creator_only() {
    let mut e = Escrow::new(authority());
    assert!(e.fee_collector().is_null());
    e.create_order(token_t1(), buyer_a(), 100).unwrap();
    assert_eq!(e.fee_collector(), buyer_a());
    e.create_order(token_t2(), buyer_b(), 101).unwrap();
    assert_eq!(e.fee_collector(), buyer_a());
    assert_eq!(
        e.create_order(Identity::null(), buyer_b(), 102),
        Err(EscrowError::InvalidArgument)
    );
    assert_eq!(e.fee_collector(), buyer_a());
}

#[test]
fn release_of_unknown_order_fails_with_order_not_found() {
    let mut e = Escrow::new(authority());
    assert_eq!(
        e.prepare_release(5, true, authority()),
        Err(EscrowError::OrderNotFound)
    );
    assert_eq!(
        e.commit_release(5, authority(), TransferOutcome::Returned(true)),
        Err(EscrowError::OrderNotFound)
    );
}

#[test]
fn non_approved_outcome_rejected_and_flag_stays_false() {
    let mut e = Escrow::new(authority());
    let id = e.create_order(token_t1(), buyer_a(), 100).unwrap().order_id;
    assert_eq!(
        e.prepare_release(id, false, authority()),
        Err(EscrowError::OutcomeNotApproved)
    );
    assert!(!e.get_order(id).released);
}

#[test]
fn release_happens_exactly_once() {
    let mut e = Escrow::new(authority());
    let id = e.create_order(token_t1(), buyer_a(), 100).unwrap().order_id;
    e.prepare_release(id, true, authority()).unwrap();
    assert_eq!(
        e.commit_release(id, authority(), TransferOutcome::Returned(true)),
        Ok(())
    );
    assert!(e.get_order(id).released);
    // a second attempt fails and leaves the flag set
    assert_eq!(
        e.prepare_release(id, true, authority()),
        Err(EscrowError::AlreadyReleased)
    );
    assert_eq!(
        e.commit_release(id, authority(), TransferOutcome::Returned(true)),
        Err(EscrowError::AlreadyReleased)
    );
    assert!(e.get_order(id).released);
}

#[test]
fn first_order_scenario() {
    let mut e = Escrow::new(authority());
    let event = e.create_order(token_t1(), buyer_a(), 777).unwrap();
    assert_eq!(
        event,
        OrderCreated { order_id: 0, buyer: buyer_a(), token: token_t1(), amount: FIXED_AMOUNT }
    );
    assert_eq!(
        e.get_order(0),
        Order {
            token: token_t1(),
            buyer: buyer_a(),
            amount: FIXED_AMOUNT,
            released: false,
            created_at: 777,
        }
    );
    assert_eq!(e.fee_collector(), buyer_a());
}

#[test]
fn successful_release_scenario() {
    let mut e = Escrow::new(authority());
    e.create_order(token_t1(), buyer_a(), 100).unwrap();
    // validation names the transfer: the fixed amount of the order's token
    // out of custody to the buyer
    assert_eq!(
        e.prepare_release(0, true, authority()),
        Ok(TransferRequest { token: token_t1(), to: buyer_a(), amount: FIXED_AMOUNT })
    );
    // the custodied balance sufficed: the transfer reported success
    assert_eq!(
        e.commit_release(0, authority(), TransferOutcome::Returned(true)),
        Ok(())
    );
    assert!(e.get_order(0).released);
}

#[test]
fn failed_transfer_leaves_order_unreleased() {
    let mut e = Escrow::new(authority());
    e.create_order(token_t1(), buyer_a(), 100).unwrap();
    e.prepare_release(0, true, authority()).unwrap();
    // insufficient custodied balance: the transfer completed but reported failure
    assert_eq!(
        e.commit_release(0, authority(), TransferOutcome::Returned(false)),
        Err(EscrowError::TransferRejected)
    );
    assert!(!e.get_order(0).released);
    // the transfer call itself could not be executed
    assert_eq!(
        e.commit_release(0, authority(), TransferOutcome::CallFailed),
        Err(EscrowError::TransferCallFailed)
    );
    assert!(!e.get_order(0).released);
    // the order is still releasable once the transfer goes through
    assert_eq!(
        e.commit_release(0, authority(), TransferOutcome::Returned(true)),
        Ok(())
    );
    assert!(e.get_order(0).released);
}

#[test]
fn unauthorized_caller_rejected_without_state_change() {
    let mut e = Escrow::new(authority());
    e.create_order(token_t1(), buyer_a(), 100).unwrap();
    assert_eq!(
        e.prepare_release(0, true, buyer_b()),
        Err(EscrowError::Unauthorized)
    );
    assert_eq!(
        e.commit_release(0, buyer_b(), TransferOutcome::Returned(true)),
        Err(EscrowError::Unauthorized)
    );
    assert!(!e.get_order(0).released);
    assert_eq!(e.next_order_id(), 1);
    assert_eq!(e.fee_collector(), buyer_a());
}

#[test]
fn absent_order_reads_as_zero_record() {
    let e = Escrow::new(authority());
    assert_eq!(
        e.get_order(42),
        Order {
            token: Identity::null(),
            buyer: Identity::null(),
            amount: 0,
            released: false,
            created_at: 0,
        }
    );
    assert_eq!(e.release_authority(), authority());
}
