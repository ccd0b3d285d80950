//! What holds of the escrow contract across calls, proved over its
//! mathematical state.

use crate::error::EscrowError;
use crate::escrow::EscrowView;
use crate::order::{OrderView, PayoutView};
use vstd::prelude::*;

verus! {

/// Every operation keeps the state valid: orders stay under their own
/// identifiers, and none is refunded without having been paid.
pub proof fn law_operations_keep_state_valid(
    state: EscrowView,
    caller: Seq<char>,
    order_id: Seq<char>,
    payer_id: Seq<char>,
    amount: nat,
    attached: nat,
    now: nat,
)
    requires
        state.valid(),
    ensures
        EscrowView::init(caller).valid(),
        state.after_create_order(caller, order_id, payer_id, amount, now).valid(),
        state.after_pay_order(caller, attached, order_id).valid(),
        state.after_refund(caller, order_id).valid(),
{
}

/// The owner is fixed when the contract is set up: no operation changes it.
pub proof fn law_owner_is_fixed(
    state: EscrowView,
    caller: Seq<char>,
    order_id: Seq<char>,
    payer_id: Seq<char>,
    amount: nat,
    attached: nat,
    now: nat,
)
    ensures
        EscrowView::init(caller).owner_id == caller,
        state.after_create_order(caller, order_id, payer_id, amount, now).owner_id
            == state.owner_id,
        state.after_pay_order(caller, attached, order_id).owner_id == state.owner_id,
        state.after_refund(caller, order_id).owner_id == state.owner_id,
{
}

/// A rejected call changes nothing.
pub proof fn law_rejected_call_changes_nothing(
    state: EscrowView,
    caller: Seq<char>,
    order_id: Seq<char>,
    payer_id: Seq<char>,
    amount: nat,
    attached: nat,
    now: nat,
)
    ensures
        state.create_order_error(caller) is Some ==> state.after_create_order(
            caller,
            order_id,
            payer_id,
            amount,
            now,
        ) == state,
        state.pay_order_error(caller, attached, order_id) is Some ==> state.after_pay_order(
            caller,
            attached,
            order_id,
        ) == state,
        state.refund_error(caller, order_id) is Some ==> state.after_refund(caller, order_id)
            == state,
{
}

/// Payment and refund never change who owns the contract, which orders
/// exist, or an order's identifier, payer, amount and time of creation; and
/// they touch no order but the one they name.
pub proof fn law_payment_and_refund_keep_terms(
    state: EscrowView,
    caller: Seq<char>,
    attached: nat,
    order_id: Seq<char>,
    other_id: Seq<char>,
)
    requires
        state.orders.contains_key(other_id),
    ensures
        ({
            let next = state.after_pay_order(caller, attached, order_id);
            &&& next.owner_id == state.owner_id
            &&& next.orders.dom() == state.orders.dom()
            &&& next.orders[other_id].order_id == state.orders[other_id].order_id
            &&& next.orders[other_id].payer_id == state.orders[other_id].payer_id
            &&& next.orders[other_id].amount == state.orders[other_id].amount
            &&& next.orders[other_id].created_at == state.orders[other_id].created_at
            &&& other_id != order_id ==> next.orders[other_id] == state.orders[other_id]
        }),
        ({
            let next = state.after_refund(caller, order_id);
            &&& next.owner_id == state.owner_id
            &&& next.orders.dom() == state.orders.dom()
            &&& next.orders[other_id].order_id == state.orders[other_id].order_id
            &&& next.orders[other_id].payer_id == state.orders[other_id].payer_id
            &&& next.orders[other_id].amount == state.orders[other_id].amount
            &&& next.orders[other_id].created_at == state.orders[other_id].created_at
            &&& other_id != order_id ==> next.orders[other_id] == state.orders[other_id]
        }),
{
    let paid = state.after_pay_order(caller, attached, order_id);
    assert(paid.orders.dom() =~= state.orders.dom());
    let refunded = state.after_refund(caller, order_id);
    assert(refunded.orders.dom() =~= state.orders.dom());
}

/// Payment and refund never move an order back: a paid order stays paid and
/// a refunded order stays refunded.
pub proof fn law_lifecycle_moves_forward(
    state: EscrowView,
    caller: Seq<char>,
    attached: nat,
    order_id: Seq<char>,
    other_id: Seq<char>,
)
    requires
        state.orders.contains_key(other_id),
    ensures
        ({
            let next = state.after_pay_order(caller, attached, order_id);
            &&& state.orders[other_id].is_completed ==> next.orders[other_id].is_completed
            &&& state.orders[other_id].is_refunded == next.orders[other_id].is_refunded
        }),
        ({
            let next = state.after_refund(caller, order_id);
            &&& state.orders[other_id].is_completed == next.orders[other_id].is_completed
            &&& state.orders[other_id].is_refunded ==> next.orders[other_id].is_refunded
        }),
{
}

/// An accepted payment marks the order as paid, and the same call made again
/// is rejected with `AlreadyPaid` and changes nothing, so the amount is
/// taken once.
pub proof fn law_pay_order_twice(
    state: EscrowView,
    signer: Seq<char>,
    attached: nat,
    order_id: Seq<char>,
)
    requires
        state.pay_order_error(signer, attached, order_id) is None,
    ensures
        ({
            let paid = state.after_pay_order(signer, attached, order_id);
            &&& paid.orders[order_id].is_completed
            &&& paid.pay_order_error(signer, attached, order_id) == Some(EscrowError::AlreadyPaid)
            &&& paid.after_pay_order(signer, attached, order_id) == paid
            &&& paid.after_pay_order(signer, attached, order_id).orders[order_id].is_completed
        }),
{
}

/// Once an order is paid, every payment of it is rejected, whoever signs and
/// whatever is attached, and the order stays as it is. The rejection is
/// `AlreadyPaid` exactly when the payer signs and attaches enough.
pub proof fn law_paid_order_takes_no_payment(
    state: EscrowView,
    signer: Seq<char>,
    attached: nat,
    order_id: Seq<char>,
)
    requires
        state.orders.contains_key(order_id),
        state.orders[order_id].is_completed,
    ensures
        state.pay_order_error(signer, attached, order_id) is Some,
        state.after_pay_order(signer, attached, order_id) == state,
        state.pay_order_error(signer, attached, order_id) == Some(EscrowError::AlreadyPaid) <==> (
        signer == state.orders[order_id].payer_id && attached >= state.orders[order_id].amount),
{
}

/// A refund by the owner of an existing order is rejected with
/// `RefundNotAllowed` unless the order is paid and not yet refunded, and
/// accepted if it is.
pub proof fn law_refund_needs_paid_unrefunded_order(
    state: EscrowView,
    caller: Seq<char>,
    order_id: Seq<char>,
)
    requires
        caller == state.owner_id,
        state.orders.contains_key(order_id),
    ensures
        ({
            let order = state.orders[order_id];
            let refundable = order.is_completed && !order.is_refunded;
            &&& refundable ==> state.refund_error(caller, order_id) is None
            &&& !refundable ==> state.refund_error(caller, order_id) == Some(
                EscrowError::RefundNotAllowed,
            )
        }),
        state.refund_error(caller, order_id) == state.orders[order_id].refund_error(),
{
}

/// An accepted refund marks the order as refunded, and every later refund
/// of it is rejected and changes nothing, so the amount is paid out once.
pub proof fn law_refund_twice(
    state: EscrowView,
    caller: Seq<char>,
    later_caller: Seq<char>,
    order_id: Seq<char>,
)
    requires
        state.refund_error(caller, order_id) is None,
    ensures
        ({
            let refunded = state.after_refund(caller, order_id);
            &&& refunded.orders[order_id].is_refunded
            &&& refunded.orders[order_id].is_completed
            &&& refunded.refund_error(caller, order_id) == Some(EscrowError::RefundNotAllowed)
            &&& refunded.refund_error(later_caller, order_id) is Some
            &&& refunded.after_refund(later_caller, order_id) == refunded
        }),
{
}

/// A payment signed by anyone but the order's payer is rejected with
/// `WrongPayer`, whatever is attached, and changes nothing.
pub proof fn law_wrong_payer_is_rejected(
    state: EscrowView,
    signer: Seq<char>,
    attached: nat,
    order_id: Seq<char>,
)
    requires
        state.orders.contains_key(order_id),
        signer != state.orders[order_id].payer_id,
    ensures
        state.pay_order_error(signer, attached, order_id) == Some(EscrowError::WrongPayer),
        state.after_pay_order(signer, attached, order_id) == state,
{
}

/// A payment below the order's amount is rejected with
/// `InsufficientDeposit` and leaves the order unpaid if it was.
pub proof fn law_underpayment_is_rejected(
    state: EscrowView,
    attached: nat,
    order_id: Seq<char>,
)
    requires
        state.orders.contains_key(order_id),
        attached < state.orders[order_id].amount,
    ensures
        ({
            let signer = state.orders[order_id].payer_id;
            &&& state.pay_order_error(signer, attached, order_id) == Some(
                EscrowError::InsufficientDeposit,
            )
            &&& state.after_pay_order(signer, attached, order_id) == state
        }),
{
}

/// An accepted payment keeps exactly the order's amount: what goes back to
/// the payer is what was attached above it, and nothing where the two are
/// equal.
pub proof fn law_payment_returns_the_excess(
    state: EscrowView,
    signer: Seq<char>,
    attached: nat,
    order_id: Seq<char>,
)
    requires
        state.pay_order_error(signer, attached, order_id) is None,
    ensures
        ({
            let order = state.orders[order_id];
            let payout = state.pay_order_payout(attached, order_id);
            &&& payout.total() + order.amount == attached
            &&& attached == order.amount <==> payout is Nothing
            &&& payout matches PayoutView::Transfer { receiver, amount } ==> receiver == signer
                && receiver == order.payer_id && amount == attached - order.amount
        }),
{
}

/// Only the owner creates and refunds orders: from anyone else both calls
/// are rejected with `Unauthorized`, and no order is created or changed.
pub proof fn law_only_owner_creates_and_refunds(
    state: EscrowView,
    caller: Seq<char>,
    order_id: Seq<char>,
    payer_id: Seq<char>,
    amount: nat,
    now: nat,
)
    requires
        caller != state.owner_id,
    ensures
        state.create_order_error(caller) == Some(EscrowError::Unauthorized),
        state.after_create_order(caller, order_id, payer_id, amount, now) == state,
        state.refund_error(caller, order_id) == Some(EscrowError::Unauthorized),
        state.after_refund(caller, order_id) == state,
{
}

/// An accepted refund pays out exactly the order's amount, to the order's
/// payer: a transfer of the whole amount where it is positive, none where it
/// is zero. Who asked for the refund plays no part in it.
pub proof fn law_refund_pays_amount_to_payer(
    state: EscrowView,
    caller: Seq<char>,
    order_id: Seq<char>,
)
    requires
        state.refund_error(caller, order_id) is None,
    ensures
        ({
            let order = state.orders[order_id];
            let payout = state.refund_payout(order_id);
            &&& payout.total() == order.amount
            &&& order.amount > 0 ==> payout == (PayoutView::Transfer {
                receiver: order.payer_id,
                amount: order.amount,
            })
            &&& order.amount == 0 ==> payout is Nothing
        }),
{
}

/// No value is made or lost: what an accepted payment attaches is what goes
/// back to the payer plus what the contract then holds for the order, and
/// what an accepted refund pays out is what the contract held for the order,
/// of which nothing is left.
pub proof fn law_value_is_conserved(order: OrderView, signer: Seq<char>, attached: nat)
    requires
        order.valid(),
    ensures
        order.pay_error(signer, attached) is None ==> {
            &&& order.escrowed() == 0
            &&& order.paid().escrowed() == order.amount
            &&& attached == order.overpayment(attached).total() + order.paid().escrowed()
        },
        order.refund_error() is None ==> {
            &&& order.escrowed() == order.amount
            &&& order.refund_payout().total() == order.escrowed()
            &&& order.refunded().escrowed() == 0
        },
        order.refund_error() is Some ==> order.escrowed() == 0,
{
}

/// An order of amount zero is paid by any deposit its payer attaches, all of
/// which goes back: with nothing attached no transfer is needed. Its refund
/// needs no transfer either and still marks it as refunded.
pub proof fn law_zero_amount_order(order: OrderView, attached: nat)
    requires
        order.valid(),
        order.amount == 0,
        !order.is_completed,
    ensures
        order.pay_error(order.payer_id, attached) is None,
        order.overpayment(attached).total() == attached,
        attached == 0 ==> order.overpayment(attached) is Nothing,
        order.paid().refund_error() is None,
        order.paid().refund_payout() is Nothing,
        order.paid().refunded().is_refunded,
{
}

/// Creating an order puts a fresh, unpaid order under the identifier,
/// whatever was kept there, and leaves every other order alone.
pub proof fn law_create_order_starts_afresh(
    state: EscrowView,
    order_id: Seq<char>,
    payer_id: Seq<char>,
    amount: nat,
    now: nat,
    other_id: Seq<char>,
)
    requires
        other_id != order_id,
    ensures
        ({
            let next = state.after_create_order(state.owner_id, order_id, payer_id, amount, now);
            &&& next.orders.contains_key(order_id)
            &&& next.orders[order_id] == OrderView::created(order_id, payer_id, amount, now)
            &&& !next.orders[order_id].is_completed
            &&& !next.orders[order_id].is_refunded
            &&& next.orders.contains_key(other_id) == state.orders.contains_key(other_id)
            &&& state.orders.contains_key(other_id) ==> next.orders[other_id]
                == state.orders[other_id]
        }),
{
}

} // verus!
