use uit_ecommerce_payment::error::EscrowError;
use uit_ecommerce_payment::order::{Order, Payout};
use uit_ecommerce_payment::store::OrderStore;

fn order(amount: u128) -> Order {
    Order::new("order_1".to_owned(), "bob".to_owned(), amount, 42)
}

#[test]
fn new_order_has_the_given_terms() {
    let order = order(1000);
    assert_eq!(order.order_id, "order_1");
    assert_eq!(order.payer_id, "bob");
    assert_eq!(order.amount, 1000);
    assert_eq!(order.get_amount(), 1000);
    assert!(!order.is_completed);
    assert!(!order.is_refunded);
    assert_eq!(order.created_at, 42);
}

#[test]
fn clone_keeps_every_field() {
    let mut first = order(5);
    first.pay(&"bob".to_owned(), 5).unwrap();
    let copy = first.clone();
    assert_eq!(copy, first);
    assert!(copy.is_completed);
}

#[test]
fn pay_marks_the_order_and_returns_the_excess() {
    let mut exact = order(1000);
    assert_eq!(exact.pay(&"bob".to_owned(), 1000), Ok(Payout::Nothing));
    assert!(exact.is_completed);
    assert!(!exact.is_refunded);

    let mut over = order(1000);
    assert_eq!(
        over.pay(&"bob".to_owned(), 1500),
        Ok(Payout::Transfer { receiver: "bob".to_owned(), amount: 500 })
    );
    assert!(over.is_completed);
    assert_eq!(over.amount, 1000);
}

#[test]
fn rejected_pay_leaves_the_order_alone() {
    let mut unpaid = order(1000);
    assert_eq!(unpaid.pay(&"eve".to_owned(), 1000), Err(EscrowError::WrongPayer));
    assert_eq!(unpaid, order(1000));
    assert_eq!(unpaid.pay(&"bob".to_owned(), 999), Err(EscrowError::InsufficientDeposit));
    assert_eq!(unpaid, order(1000));
    unpaid.pay(&"bob".to_owned(), 1000).unwrap();
    let paid = unpaid.clone();
    assert_eq!(unpaid.pay(&"bob".to_owned(), 1000), Err(EscrowError::AlreadyPaid));
    assert_eq!(unpaid, paid);
}

#[test]
fn refund_marks_the_order_and_pays_the_amount() {
    let mut order = order(1000);
    assert_eq!(order.refund(), Err(EscrowError::RefundNotAllowed));
    assert!(!order.is_refunded);
    order.pay(&"bob".to_owned(), 1200).unwrap();
    assert_eq!(order.refund(), Ok(Payout::Transfer { receiver: "bob".to_owned(), amount: 1000 }));
    assert!(order.is_completed);
    assert!(order.is_refunded);
    assert_eq!(order.refund(), Err(EscrowError::RefundNotAllowed));
    assert!(order.is_refunded);
}

#[test]
fn refund_of_nothing_still_marks_the_order() {
    let mut order = order(0);
    assert_eq!(order.pay(&"bob".to_owned(), 0), Ok(Payout::Nothing));
    assert_eq!(order.refund(), Ok(Payout::Nothing));
    assert!(order.is_refunded);
}

#[test]
fn store_finds_what_was_inserted() {
    let mut store = OrderStore::new();
    assert_eq!(store.get(&"a".to_owned()), None);
    store.insert("a".to_owned(), Order::new("a".to_owned(), "bob".to_owned(), 1, 0));
    store.insert("b".to_owned(), Order::new("b".to_owned(), "carol".to_owned(), 2, 0));
    assert_eq!(store.get(&"a".to_owned()).unwrap().amount, 1);
    assert_eq!(store.get(&"b".to_owned()).unwrap().payer_id, "carol");
    assert_eq!(store.get(&"c".to_owned()), None);
    assert_eq!(store.get(&"".to_owned()), None);
}

#[test]
fn store_overwrites_under_the_same_identifier() {
    let mut store = OrderStore::new();
    store.insert("a".to_owned(), Order::new("a".to_owned(), "bob".to_owned(), 1, 0));
    store.insert("b".to_owned(), Order::new("b".to_owned(), "bob".to_owned(), 2, 0));
    store.insert("a".to_owned(), Order::new("a".to_owned(), "carol".to_owned(), 3, 5));
    let a = store.get(&"a".to_owned()).unwrap();
    assert_eq!(a.payer_id, "carol");
    assert_eq!(a.amount, 3);
    assert_eq!(a.created_at, 5);
    assert_eq!(store.get(&"b".to_owned()).unwrap().amount, 2);
}

#[test]
fn escrowed_is_the_amount_between_payment_and_refund() {
    let mut order = order(1000);
    assert_eq!(order.escrowed(), 0);
    order.pay(&"bob".to_owned(), 1300).unwrap();
    assert_eq!(order.escrowed(), 1000);
    order.refund().unwrap();
    assert_eq!(order.escrowed(), 0);
}
