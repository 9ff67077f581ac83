//! Cash and Payable represent money and debt.
//!
//! Cash is some value that was taken from someone and must be credited to
//! someone; Payable is some value that was credited to someone and must be
//! paid by someone. Payable must be covered by Cash at all times.

use vstd::prelude::*;
use crate::{Balance, Error};

verus! {

/// Value taken from someone, that must be credited to someone.
#[must_use]
#[derive(Clone, Copy, PartialEq, Eq, Structural, Debug)]
pub struct Cash(pub Balance);

/// Value credited to someone, that must be paid by someone.
#[must_use]
#[derive(PartialEq, Eq, Structural, Debug)]
pub struct Payable(pub Balance);

impl Cash {
    /// A debt and the cash that covers it, of the same amount.
    pub fn borrow_payable_cash(amount: Balance) -> (r: (Payable, Cash))
        ensures
            r.0.0 == amount,
            r.1.0 == amount,
    {
        (Payable(amount), Cash(amount))
    }

    #[must_use]
    pub fn consume(self) -> (v: Balance)
        ensures
            v == self.0,
    {
        self.0
    }

    pub fn peek(&self) -> (v: Balance)
        ensures
            v == self.0,
    {
        self.0
    }

    pub fn increase(&mut self, cash: Cash)
        requires
            old(self).0 + cash.0 <= u128::MAX,
        ensures
            final(self).0 == old(self).0 + cash.0,
    {
        self.0 = self.0 + cash.consume();
    }

    /// Pays the debt from this cash if it covers it; otherwise nothing changes.
    pub fn pay(&mut self, payable: Payable) -> (r: Result<(), Error>)
        ensures
            old(self).0 >= payable.0 ==> r == Ok::<(), Error>(()) && final(self).0 == old(self).0
                - payable.0,
            old(self).0 < payable.0 ==> r == Err::<(), Error>(Error::InsufficientBalance)
                && final(self).0 == old(self).0,
    {
        if self.peek() >= payable.peek() {
            self.pay_unchecked(payable);
            Ok(())
        } else {
            Err(Error::InsufficientBalance)
        }
    }

    pub fn pay_unchecked(&mut self, payable: Payable)
        requires
            old(self).0 >= payable.0,
        ensures
            final(self).0 == old(self).0 - payable.0,
    {
        self.0 = self.0 - payable.consume();
    }
}

impl Payable {
    pub fn new(amount: Balance) -> (p: Self)
        ensures
            p.0 == amount,
    {
        Payable(amount)
    }

    #[must_use]
    pub fn consume(self) -> (v: Balance)
        ensures
            v == self.0,
    {
        self.0
    }

    pub fn peek(&self) -> (v: Balance)
        ensures
            v == self.0,
    {
        self.0
    }
}

} // verus!
