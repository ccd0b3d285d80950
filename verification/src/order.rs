use crate::error::EscrowError;
use vstd::prelude::*;

verus! {

/// The identifier under which an order is stored.
pub type OrderId = String;

/// An identity as the environment reports it.
pub type AccountId = String;

/// An amount of value in the smallest currency unit.
pub type Balance = u128;

/// A point in time as the environment reports it.
pub type Timestamp = u64;

/// One escrowed transaction between the owner and a payer.
#[derive(Debug, PartialEq, Eq)]
pub struct Order {
    pub order_id: OrderId,
    pub payer_id: AccountId,
    pub amount: Balance,
    pub is_completed: bool,
    pub is_refunded: bool,
    pub created_at: Timestamp,
}

/// The mathematical value of an [`Order`].
pub struct OrderView {
    pub order_id: Seq<char>,
    pub payer_id: Seq<char>,
    pub amount: nat,
    pub is_completed: bool,
    pub is_refunded: bool,
    pub created_at: nat,
}

/// The transfer that a successful operation asks its caller to request.
#[derive(Debug, PartialEq, Eq)]
pub enum Payout {
    /// Move `amount` to `receiver`.
    Transfer { receiver: AccountId, amount: Balance },
    /// No transfer is needed.
    Nothing,
}

/// The mathematical value of a [`Payout`].
pub enum PayoutView {
    Transfer { receiver: Seq<char>, amount: nat },
    Nothing,
}

impl View for Payout {
    type V = PayoutView;

    open spec fn view(&self) -> PayoutView {
        match *self {
            Payout::Transfer { receiver, amount } => PayoutView::Transfer {
                receiver: receiver@,
                amount: amount as nat,
            },
            Payout::Nothing => PayoutView::Nothing,
        }
    }
}

impl PayoutView {
    /// The value that the payout moves: zero where no transfer is needed.
    pub open spec fn total(self) -> nat {
        match self {
            PayoutView::Transfer { amount, .. } => amount,
            PayoutView::Nothing => 0,
        }
    }
}

impl View for Order {
    type V = OrderView;

    open spec fn view(&self) -> OrderView {
        OrderView {
            order_id: self.order_id@,
            payer_id: self.payer_id@,
            amount: self.amount as nat,
            is_completed: self.is_completed,
            is_refunded: self.is_refunded,
            created_at: self.created_at as nat,
        }
    }
}

impl OrderView {
    /// The order as it stands right after its creation: neither paid nor
    /// refunded.
    pub open spec fn created(
        order_id: Seq<char>,
        payer_id: Seq<char>,
        amount: nat,
        created_at: nat,
    ) -> OrderView {
        OrderView {
            order_id,
            payer_id,
            amount,
            is_completed: false,
            is_refunded: false,
            created_at,
        }
    }

    /// An order can only have been refunded after it was paid.
    pub open spec fn valid(self) -> bool {
        self.is_refunded ==> self.is_completed
    }

    /// The value that the contract holds for this order: its amount, from the
    /// payment until the refund.
    pub open spec fn escrowed(self) -> nat {
        if self.is_completed && !self.is_refunded {
            self.amount
        } else {
            0
        }
    }

    /// The reason for which a payment by `signer` with `attached` value is
    /// rejected, if it is. The checks come in a fixed order: the payer, the
    /// deposit, then whether the order was paid before.
    pub open spec fn pay_error(self, signer: Seq<char>, attached: nat) -> Option<EscrowError> {
        if signer != self.payer_id {
            Some(EscrowError::WrongPayer)
        } else if attached < self.amount {
            Some(EscrowError::InsufficientDeposit)
        } else if self.is_completed {
            Some(EscrowError::AlreadyPaid)
        } else {
            None
        }
    }

    /// The order after a successful payment.
    pub open spec fn paid(self) -> OrderView {
        OrderView { is_completed: true, ..self }
    }

    /// What a successful payment with `attached` value hands back: the part
    /// of the deposit above the order's amount goes back to the payer.
    pub open spec fn overpayment(self, attached: nat) -> PayoutView {
        if attached > self.amount {
            PayoutView::Transfer {
                receiver: self.payer_id,
                amount: (attached - self.amount) as nat,
            }
        } else {
            PayoutView::Nothing
        }
    }

    /// The reason for which a refund is rejected, if it is.
    pub open spec fn refund_error(self) -> Option<EscrowError> {
        if self.is_completed && !self.is_refunded {
            None
        } else {
            Some(EscrowError::RefundNotAllowed)
        }
    }

    /// The order after a successful refund.
    pub open spec fn refunded(self) -> OrderView {
        OrderView { is_refunded: true, ..self }
    }

    /// What a successful refund pays out: the order's whole amount, to its
    /// payer.
    pub open spec fn refund_payout(self) -> PayoutView {
        if self.amount > 0 {
            PayoutView::Transfer { receiver: self.payer_id, amount: self.amount }
        } else {
            PayoutView::Nothing
        }
    }
}

impl Clone for Order {
    fn clone(&self) -> (copy: Self)
        ensures
            copy == *self,
    {
        Order {
            order_id: self.order_id.clone(),
            payer_id: self.payer_id.clone(),
            amount: self.amount,
            is_completed: self.is_completed,
            is_refunded: self.is_refunded,
            created_at: self.created_at,
        }
    }
}

impl Order {
    /// Builds an order that is neither paid nor refunded, created at
    /// `created_at`.
    pub fn new(order_id: OrderId, payer_id: AccountId, amount: Balance, created_at: Timestamp) -> (order: Self)
        ensures
            order@ == OrderView::created(order_id@, payer_id@, amount as nat, created_at as nat),
            order.order_id == order_id,
            order.payer_id == payer_id,
    {
        Order { order_id, payer_id, amount, is_completed: false, is_refunded: false, created_at }
    }

    /// The amount that the payer owes for this order.
    pub fn get_amount(&self) -> (amount: Balance)
        ensures
            amount == self.amount,
    {
        self.amount
    }

    /// The value that the contract holds for this order: its amount, from the
    /// payment until the refund.
    pub fn escrowed(&self) -> (held: Balance)
        ensures
            held as nat == self@.escrowed(),
    {
        if self.is_completed && !self.is_refunded {
            self.amount
        } else {
            0
        }
    }

    /// Settles the order for `signer`, who attached `attached` to the call.
    ///
    /// On success the order is marked as paid and the result tells which part
    /// of the deposit goes back to the payer. On failure the order is left as
    /// it was.
    pub fn pay(&mut self, signer: &AccountId, attached: Balance) -> (result: Result<Payout, EscrowError>)
        ensures
            match result {
                Ok(payout) => {
                    &&& old(self)@.pay_error(signer@, attached as nat) is None
                    &&& final(self)@ == old(self)@.paid()
                    &&& payout@ == old(self)@.overpayment(attached as nat)
                },
                Err(error) => {
                    &&& old(self)@.pay_error(signer@, attached as nat) == Some(error)
                    &&& *final(self) == *old(self)
                },
            },
    {
        if *signer != self.payer_id {
            return Err(EscrowError::WrongPayer);
        }
        if attached < self.amount {
            return Err(EscrowError::InsufficientDeposit);
        }
        if self.is_completed {
            return Err(EscrowError::AlreadyPaid);
        }
        self.is_completed = true;
        if attached > self.amount {
            Ok(Payout::Transfer { receiver: self.payer_id.clone(), amount: attached - self.amount })
        } else {
            Ok(Payout::Nothing)
        }
    }

    /// Refunds the order: its whole amount goes back to its payer.
    ///
    /// On success the order is marked as refunded, whether or not there is
    /// anything to transfer. On failure the order is left as it was.
    pub fn refund(&mut self) -> (result: Result<Payout, EscrowError>)
        ensures
            match result {
                Ok(payout) => {
                    &&& old(self)@.refund_error() is None
                    &&& final(self)@ == old(self)@.refunded()
                    &&& payout@ == old(self)@.refund_payout()
                },
                Err(error) => {
                    &&& old(self)@.refund_error() == Some(error)
                    &&& *final(self) == *old(self)
                },
            },
    {
        if !(self.is_completed && !self.is_refunded) {
            return Err(EscrowError::RefundNotAllowed);
        }
        let payout = if self.amount > 0 {
            Payout::Transfer { receiver: self.payer_id.clone(), amount: self.amount }
        } else {
            Payout::Nothing
        };
        self.is_refunded = true;
        Ok(payout)
    }
}

} // verus!
