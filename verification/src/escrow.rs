use crate::error::EscrowError;
use crate::order::{AccountId, Balance, Order, OrderId, OrderView, Payout, PayoutView, Timestamp};
use crate::store::OrderStore;
use vstd::prelude::*;

verus! {

/// The reason for which `caller` may not act for the owner `owner_id`, if
/// there is one.
pub open spec fn owner_error(owner_id: Seq<char>, caller: Seq<char>) -> Option<EscrowError> {
    if caller != owner_id {
        Some(EscrowError::Unauthorized)
    } else {
        None
    }
}

/// The reason for which looking up an order fails, if it does, where `found`
/// is what the store holds under the identifier.
pub open spec fn lookup_error(found: Option<OrderView>) -> Option<EscrowError> {
    match found {
        None => Some(EscrowError::OrderNotFound),
        Some(_) => None,
    }
}

/// The reason for which a payment is rejected, if it is, where `found` is
/// what the store holds under the identifier: first the order must exist,
/// then the order's own checks apply.
pub open spec fn payment_error(found: Option<OrderView>, signer: Seq<char>, attached: nat) -> Option<
    EscrowError,
> {
    match found {
        None => Some(EscrowError::OrderNotFound),
        Some(order) => order.pay_error(signer, attached),
    }
}

/// The reason for which a refund is rejected, if it is, where `found` is what
/// the store holds under the identifier: first the caller must be the owner,
/// then the order must exist, then it must be paid and not yet refunded.
pub open spec fn refund_error(owner_id: Seq<char>, caller: Seq<char>, found: Option<OrderView>) -> Option<
    EscrowError,
> {
    if owner_error(owner_id, caller) is Some {
        owner_error(owner_id, caller)
    } else {
        match found {
            None => Some(EscrowError::OrderNotFound),
            Some(order) => order.refund_error(),
        }
    }
}

/// The mathematical value of what a lookup in the store gave.
pub open spec fn found_view(found: Option<Order>) -> Option<OrderView> {
    match found {
        Some(order) => Some(order@),
        None => None,
    }
}

/// Decides on the creation of an order of `amount` for `payer_id` under
/// `order_id`, asked for by `caller` at time `now` of a contract that
/// `owner_id` owns. Where it is accepted, the result is the order to store.
pub fn decide_create(
    owner_id: &AccountId,
    caller: &AccountId,
    order_id: OrderId,
    payer_id: AccountId,
    amount: Balance,
    now: Timestamp,
) -> (result: Result<Order, EscrowError>)
    ensures
        match result {
            Ok(order) => {
                &&& owner_error(owner_id@, caller@) is None
                &&& order@ == OrderView::created(order_id@, payer_id@, amount as nat, now as nat)
            },
            Err(error) => owner_error(owner_id@, caller@) == Some(error),
        },
{
    if *caller != *owner_id {
        return Err(EscrowError::Unauthorized);
    }
    Ok(Order::new(order_id, payer_id, amount, now))
}

/// Decides on a lookup, where `found` is what the store holds under the
/// identifier.
pub fn decide_lookup(found: Option<Order>) -> (result: Result<Order, EscrowError>)
    ensures
        match result {
            Ok(order) => found == Some(order),
            Err(error) => lookup_error(found_view(found)) == Some(error),
        },
{
    match found {
        Some(order) => Ok(order),
        None => Err(EscrowError::OrderNotFound),
    }
}

/// Decides on a payment by `signer`, who attached `attached` to the call,
/// where `found` is what the store holds under the identifier. Where it is
/// accepted, the result is the order to store in its place and the transfer
/// to request.
pub fn decide_payment(found: Option<Order>, signer: &AccountId, attached: Balance) -> (result: Result<
    (Order, Payout),
    EscrowError,
>)
    ensures
        match result {
            Ok((order, payout)) => {
                &&& payment_error(found_view(found), signer@, attached as nat) is None
                &&& order@ == found->0@.paid()
                &&& payout@ == found->0@.overpayment(attached as nat)
            },
            Err(error) => payment_error(found_view(found), signer@, attached as nat) == Some(
                error,
            ),
        },
{
    let mut order = match found {
        Some(order) => order,
        None => {
            return Err(EscrowError::OrderNotFound);
        },
    };
    match order.pay(signer, attached) {
        Ok(payout) => Ok((order, payout)),
        Err(error) => Err(error),
    }
}

/// Decides on a refund asked for by `caller` of a contract that `owner_id`
/// owns, where `found` is what the store holds under the identifier. Where
/// it is accepted, the result is the order to store in its place and the
/// transfer to request.
pub fn decide_refund(owner_id: &AccountId, caller: &AccountId, found: Option<Order>) -> (result:
    Result<(Order, Payout), EscrowError>)
    ensures
        match result {
            Ok((order, payout)) => {
                &&& refund_error(owner_id@, caller@, found_view(found)) is None
                &&& order@ == found->0@.refunded()
                &&& payout@ == found->0@.refund_payout()
            },
            Err(error) => refund_error(owner_id@, caller@, found_view(found)) == Some(error),
        },
{
    if *caller != *owner_id {
        return Err(EscrowError::Unauthorized);
    }
    let mut order = match found {
        Some(order) => order,
        None => {
            return Err(EscrowError::OrderNotFound);
        },
    };
    match order.refund() {
        Ok(payout) => Ok((order, payout)),
        Err(error) => Err(error),
    }
}

/// The mathematical value of an [`EcomerceContract`]: the owner, fixed when
/// the contract is made, and the order kept under each identifier in use.
pub struct EscrowView {
    pub owner_id: Seq<char>,
    pub orders: Map<Seq<char>, OrderView>,
}

impl EscrowView {
    /// The state of a contract that `owner_id` has just set up.
    pub open spec fn init(owner_id: Seq<char>) -> EscrowView {
        EscrowView { owner_id, orders: Map::empty() }
    }

    /// Every order is kept under its own identifier, and none has been
    /// refunded without having been paid.
    pub open spec fn valid(self) -> bool {
        forall|order_id: Seq<char>| #[trigger]
            self.orders.contains_key(order_id) ==> {
                &&& self.orders[order_id].order_id == order_id
                &&& self.orders[order_id].valid()
            }
    }

    /// The order kept under `order_id`, if there is one.
    pub open spec fn find(self, order_id: Seq<char>) -> Option<OrderView> {
        if self.orders.contains_key(order_id) {
            Some(self.orders[order_id])
        } else {
            None
        }
    }

    /// The reason for which `create_order` by `caller` is rejected, if it is.
    pub open spec fn create_order_error(self, caller: Seq<char>) -> Option<EscrowError> {
        owner_error(self.owner_id, caller)
    }

    /// The state after `create_order`: where the call is accepted, a fresh
    /// order stands under `order_id`, in place of any order kept there before.
    pub open spec fn after_create_order(
        self,
        caller: Seq<char>,
        order_id: Seq<char>,
        payer_id: Seq<char>,
        amount: nat,
        now: nat,
    ) -> EscrowView {
        if self.create_order_error(caller) is None {
            EscrowView {
                orders: self.orders.insert(
                    order_id,
                    OrderView::created(order_id, payer_id, amount, now),
                ),
                ..self
            }
        } else {
            self
        }
    }

    /// The reason for which `get_order` fails, if it does.
    pub open spec fn get_order_error(self, order_id: Seq<char>) -> Option<EscrowError> {
        lookup_error(self.find(order_id))
    }

    /// The reason for which `pay_order` is rejected, if it is.
    pub open spec fn pay_order_error(
        self,
        signer: Seq<char>,
        attached: nat,
        order_id: Seq<char>,
    ) -> Option<EscrowError> {
        payment_error(self.find(order_id), signer, attached)
    }

    /// The state after `pay_order`: where the call is accepted, the order is
    /// marked as paid and nothing else changes.
    pub open spec fn after_pay_order(
        self,
        signer: Seq<char>,
        attached: nat,
        order_id: Seq<char>,
    ) -> EscrowView {
        if self.pay_order_error(signer, attached, order_id) is None {
            EscrowView { orders: self.orders.insert(order_id, self.orders[order_id].paid()), ..self }
        } else {
            self
        }
    }

    /// What an accepted `pay_order` hands back to the payer.
    pub open spec fn pay_order_payout(self, attached: nat, order_id: Seq<char>) -> PayoutView {
        self.orders[order_id].overpayment(attached)
    }

    /// The reason for which `refund` is rejected, if it is.
    pub open spec fn refund_error(self, caller: Seq<char>, order_id: Seq<char>) -> Option<
        EscrowError,
    > {
        refund_error(self.owner_id, caller, self.find(order_id))
    }

    /// The state after `refund`: where the call is accepted, the order is
    /// marked as refunded and nothing else changes.
    pub open spec fn after_refund(self, caller: Seq<char>, order_id: Seq<char>) -> EscrowView {
        if self.refund_error(caller, order_id) is None {
            EscrowView {
                orders: self.orders.insert(order_id, self.orders[order_id].refunded()),
                ..self
            }
        } else {
            self
        }
    }

    /// What an accepted `refund` pays out.
    pub open spec fn refund_payout(self, order_id: Seq<char>) -> PayoutView {
        self.orders[order_id].refund_payout()
    }
}

/// The escrow contract: the owner's identity and the orders.
pub struct EcomerceContract {
    owner_id: AccountId,
    orders: OrderStore,
}

impl View for EcomerceContract {
    type V = EscrowView;

    closed spec fn view(&self) -> EscrowView {
        EscrowView { owner_id: self.owner_id@, orders: self.orders@ }
    }
}

impl EcomerceContract {
    /// The representation is sound.
    pub closed spec fn wf(&self) -> bool {
        self.orders.wf()
    }

    /// What holds of a contract between any two calls.
    pub open spec fn inv(&self) -> bool {
        self.wf() && self@.valid()
    }

    /// Sets up a contract that belongs to `owner_id` and holds no order.
    pub fn new(owner_id: AccountId) -> (contract: Self)
        ensures
            contract.inv(),
            contract@ == EscrowView::init(owner_id@),
    {
        EcomerceContract { owner_id, orders: OrderStore::new() }
    }

    /// Creates an order of `amount` for `payer_id` under `order_id`, on
    /// behalf of `caller` at time `now`.
    ///
    /// Only the owner may create orders. An order already kept under
    /// `order_id` is replaced by the new one, whatever state it was in. A
    /// rejected call changes nothing.
    pub fn create_order(
        &mut self,
        caller: &AccountId,
        order_id: OrderId,
        payer_id: AccountId,
        amount: Balance,
        now: Timestamp,
    ) -> (result: Result<(), EscrowError>)
        requires
            old(self).inv(),
        ensures
            final(self).inv(),
            final(self)@ == old(self)@.after_create_order(
                caller@,
                order_id@,
                payer_id@,
                amount as nat,
                now as nat,
            ),
            result == match old(self)@.create_order_error(caller@) {
                Some(error) => Err::<(), EscrowError>(error),
                None => Ok(()),
            },
    {
        let order = match decide_create(
            &self.owner_id,
            caller,
            order_id.clone(),
            payer_id,
            amount,
            now,
        ) {
            Ok(order) => order,
            Err(error) => {
                return Err(error);
            },
        };
        self.orders.insert(order_id, order);
        assert(self@.orders == old(self)@.orders.insert(order_id@, order@));
        Ok(())
    }

    /// Settles the order kept under `order_id` for `signer`, who attached
    /// `attached` to the call.
    ///
    /// On success the order is marked as paid, its amount stays with the
    /// contract, and the result names the transfer that returns what was
    /// attached above the amount. A rejected call changes nothing.
    pub fn pay_order(&mut self, signer: &AccountId, attached: Balance, order_id: OrderId) -> (result:
        Result<Payout, EscrowError>)
        requires
            old(self).inv(),
        ensures
            final(self).inv(),
            final(self)@ == old(self)@.after_pay_order(signer@, attached as nat, order_id@),
            match result {
                Ok(payout) => {
                    &&& old(self)@.pay_order_error(signer@, attached as nat, order_id@) is None
                    &&& payout@ == old(self)@.pay_order_payout(attached as nat, order_id@)
                },
                Err(error) => old(self)@.pay_order_error(signer@, attached as nat, order_id@)
                    == Some(error),
            },
    {
        let found = self.orders.get(&order_id);
        match decide_payment(found, signer, attached) {
            Ok((order, payout)) => {
                self.orders.insert(order_id, order);
                Ok(payout)
            },
            Err(error) => Err(error),
        }
    }

    /// Returns a copy of the order kept under `order_id`. Nothing changes.
    pub fn get_order(&self, order_id: OrderId) -> (result: Result<Order, EscrowError>)
        requires
            self.inv(),
        ensures
            match result {
                Ok(order) => {
                    &&& self@.get_order_error(order_id@) is None
                    &&& order@ == self@.orders[order_id@]
                },
                Err(error) => self@.get_order_error(order_id@) == Some(error),
            },
    {
        decide_lookup(self.orders.get(&order_id))
    }

    /// Refunds the order kept under `order_id`, on behalf of `caller`.
    ///
    /// Only the owner may refund, and only an order that is paid and not yet
    /// refunded. On success the order is marked as refunded and the result
    /// names the transfer of its whole amount to its payer. A rejected call
    /// changes nothing.
    pub fn refund(&mut self, caller: &AccountId, order_id: OrderId) -> (result: Result<
        Payout,
        EscrowError,
    >)
        requires
            old(self).inv(),
        ensures
            final(self).inv(),
            final(self)@ == old(self)@.after_refund(caller@, order_id@),
            match result {
                Ok(payout) => {
                    &&& old(self)@.refund_error(caller@, order_id@) is None
                    &&& payout@ == old(self)@.refund_payout(order_id@)
                },
                Err(error) => old(self)@.refund_error(caller@, order_id@) == Some(error),
            },
    {
        let found = self.orders.get(&order_id);
        match decide_refund(&self.owner_id, caller, found) {
            Ok((order, payout)) => {
                self.orders.insert(order_id, order);
                Ok(payout)
            },
            Err(error) => Err(error),
        }
    }
}

} // verus!
