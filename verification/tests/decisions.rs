use uit_ecommerce_payment::error::EscrowError;
use uit_ecommerce_payment::escrow::{decide_create, decide_lookup, decide_payment, decide_refund};
use uit_ecommerce_payment::order::{Order, Payout};

fn id(text: &str) -> String {
    text.to_owned()
}

fn unpaid() -> Order {
    Order::new(id("order_1"), id("bob"), 1000, 11)
}

fn paid() -> Order {
    let mut order = unpaid();
    order.pay(&id("bob"), 1000).unwrap();
    order
}

#[test]
fn owner_creates_a_fresh_order() {
    let created = decide_create(&id("owner"), &id("owner"), id("order_1"), id("bob"), 1000, 11);
    assert_eq!(created, Ok(unpaid()));
}

#[test]
fn others_create_nothing() {
    let created = decide_create(&id("owner"), &id("bob"), id("order_1"), id("bob"), 1000, 11);
    assert_eq!(created, Err(EscrowError::Unauthorized));
    let created = decide_create(&id("owner"), &id("Owner"), id("order_1"), id("bob"), 1000, 11);
    assert_eq!(created, Err(EscrowError::Unauthorized));
}

#[test]
fn lookup_hands_on_what_was_found() {
    assert_eq!(decide_lookup(Some(paid())), Ok(paid()));
    assert_eq!(decide_lookup(None), Err(EscrowError::OrderNotFound));
}

#[test]
fn payment_of_a_missing_order_is_not_found() {
    assert_eq!(decide_payment(None, &id("bob"), 1000), Err(EscrowError::OrderNotFound));
}

#[test]
fn payment_gives_the_paid_order_and_the_excess() {
    assert_eq!(decide_payment(Some(unpaid()), &id("bob"), 1000), Ok((paid(), Payout::Nothing)));
    assert_eq!(
        decide_payment(Some(unpaid()), &id("bob"), 1500),
        Ok((paid(), Payout::Transfer { receiver: id("bob"), amount: 500 }))
    );
}

#[test]
fn payment_is_rejected_for_each_reason() {
    assert_eq!(decide_payment(Some(unpaid()), &id("eve"), 1000), Err(EscrowError::WrongPayer));
    assert_eq!(
        decide_payment(Some(unpaid()), &id("bob"), 999),
        Err(EscrowError::InsufficientDeposit)
    );
    assert_eq!(decide_payment(Some(paid()), &id("bob"), 1000), Err(EscrowError::AlreadyPaid));
}

#[test]
fn refund_gives_the_refunded_order_and_the_amount() {
    let mut refunded = paid();
    refunded.refund().unwrap();
    assert_eq!(
        decide_refund(&id("owner"), &id("owner"), Some(paid())),
        Ok((refunded, Payout::Transfer { receiver: id("bob"), amount: 1000 }))
    );
}

#[test]
fn refund_is_rejected_for_each_reason() {
    let mut refunded = paid();
    refunded.refund().unwrap();
    assert_eq!(decide_refund(&id("owner"), &id("bob"), Some(paid())), Err(EscrowError::Unauthorized));
    assert_eq!(decide_refund(&id("owner"), &id("bob"), None), Err(EscrowError::Unauthorized));
    assert_eq!(decide_refund(&id("owner"), &id("owner"), None), Err(EscrowError::OrderNotFound));
    assert_eq!(
        decide_refund(&id("owner"), &id("owner"), Some(unpaid())),
        Err(EscrowError::RefundNotAllowed)
    );
    assert_eq!(
        decide_refund(&id("owner"), &id("owner"), Some(refunded)),
        Err(EscrowError::RefundNotAllowed)
    );
}
