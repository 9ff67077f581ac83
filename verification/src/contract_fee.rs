//! The fee for storing records, taken from the value sent with a call.

use vstd::prelude::*;
use crate::{Balance, DdcBucket, Error, Part, Result, TOKEN, sent};
use crate::cash::Payable;

verus! {

/// The fee for each byte of a record.
pub const FEE_PER_BYTE: Balance = TOKEN / 100;

/// The fee for a record of `record_size` bytes.
fn calculate_contract_fee(record_size: usize) -> (fee: Payable)
    requires
        FEE_PER_BYTE * record_size <= u128::MAX,
    ensures
        fee.0 == FEE_PER_BYTE * record_size,
{
    Payable::new(FEE_PER_BYTE * record_size as Balance)
}

impl DdcBucket {
    /// Keeps the fee for a record of `record_size` bytes out of the value
    /// sent with the call, and sends the rest back to the caller.
    pub fn capture_fee_and_refund(&mut self, record_size: usize) -> (r: Result<()>)
        requires
            FEE_PER_BYTE * record_size <= u128::MAX,
        ensures
            ({
                let received = old(self).env.transferred_value;
                let fee = FEE_PER_BYTE * record_size;
                &&& fee > received ==> r == Err::<(), Error>(Error::InsufficientBalance) && *final(self) == *old(self)
                &&& fee <= received ==> r == Ok::<(), Error>(())
                    && final(self).transfers@ == sent(old(self).transfers@, old(self).caller(), (received - fee) as u128)
            }),
            final(self).only_changed(old(self), set![Part::Transfers]),
    {
        let mut received_value = self.receive_cash();
        let fee = calculate_contract_fee(record_size);
        match received_value.pay(fee) {
            Ok(()) => {},
            Err(e) => return Err(e),
        }
        let caller = self.env.caller;
        self.send_cash(caller, received_value)
    }
}

} // verus!
