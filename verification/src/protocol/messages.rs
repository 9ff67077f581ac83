//! The public interface to the protocol settings, and fee capture.

use vstd::prelude::*;
use crate::{AccountId, Balance, BASIS_POINTS, DdcBucket, Error, Part, Result, sent};
use crate::cash::{Cash, Payable};
use super::store::{BasisPoints, NetworkFeeConfig};

verus! {

/// The fee at a rate in basis points of some revenues, rounded down.
pub open spec fn fee_of(revenues: Balance, rate_bp: Balance) -> int {
    revenues * rate_bp / (BASIS_POINTS as int)
}

impl DdcBucket {
    pub fn message_get_protocol_fee_bp(&self) -> (r: BasisPoints)
        ensures
            r == self.protocol.protocol_fee_bp,
    {
        self.protocol.get_protocol_fee_bp()
    }

    pub fn message_get_network_fee_config(&self) -> (r: NetworkFeeConfig)
        ensures
            r == self.protocol.network_fee_config,
    {
        self.protocol.get_network_fee_config()
    }

    pub fn message_get_protocol_revenues(&self) -> (r: Cash)
        ensures
            r == self.protocol.revenues,
    {
        self.protocol.get_revenues()
    }

    /// Takes the network fee from the given revenues and sends it to the
    /// network fee destination.
    pub fn capture_network_fee(&mut self, revenues: &mut Cash) -> (r: Result<()>)
        requires
            old(revenues).0 * old(self).protocol.network_fee_config.network_fee_bp <= u128::MAX,
        ensures
            ({
                let cfg = old(self).protocol.network_fee_config;
                let fee = fee_of(old(revenues).0, cfg.network_fee_bp);
                &&& fee <= old(revenues).0 ==> r == Ok::<(), Error>(())
                    && final(revenues).0 == old(revenues).0 - fee
                    && final(self).transfers@ == sent(old(self).transfers@, cfg.network_fee_destination, fee as u128)
                &&& fee > old(revenues).0 ==> r == Err::<(), Error>(Error::InsufficientBalance)
                    && *final(revenues) == *old(revenues) && final(self).transfers == old(self).transfers
            }),
            final(self).only_changed(old(self), set![Part::Transfers]),
    {
        let rate = self.protocol.get_network_fee_bp();
        let dest = self.protocol.get_network_fee_dest();
        self.capture_fee(rate, dest, revenues)
    }

    /// Takes a fee at a rate in basis points from the given revenues and
    /// sends it to the destination.
    pub fn capture_fee(&mut self, rate_bp: Balance, destination: AccountId, revenues: &mut Cash) -> (r: Result<()>)
        requires
            old(revenues).0 * rate_bp <= u128::MAX,
        ensures
            ({
                let fee = fee_of(old(revenues).0, rate_bp);
                &&& fee <= old(revenues).0 ==> r == Ok::<(), Error>(())
                    && final(revenues).0 == old(revenues).0 - fee
                    && final(self).transfers@ == sent(old(self).transfers@, destination, fee as u128)
                &&& fee > old(revenues).0 ==> r == Err::<(), Error>(Error::InsufficientBalance)
                    && *final(revenues) == *old(revenues) && final(self).transfers == old(self).transfers
            }),
            final(self).only_changed(old(self), set![Part::Transfers]),
    {
        let fee = revenues.peek() * rate_bp / BASIS_POINTS;
        let (payable, cash) = Cash::borrow_payable_cash(fee);
        match revenues.pay(payable) {
            Ok(()) => {},
            Err(e) => return Err(e),
        }
        self.send_cash(destination, cash)
    }
}

/// A fee at a rate of at most 100% never exceeds the revenues it is taken from.
pub proof fn lemma_fee_within_revenues(revenues: Balance, rate_bp: Balance)
    requires
        rate_bp <= BASIS_POINTS,
    ensures
        0 <= fee_of(revenues, rate_bp) <= revenues,
{
    assert(revenues * rate_bp <= revenues * BASIS_POINTS) by (nonlinear_arith)
        requires
            rate_bp <= BASIS_POINTS,
    ;
    vstd::arithmetic::div_mod::lemma_div_is_ordered(revenues * rate_bp, revenues * BASIS_POINTS, BASIS_POINTS as int);
    vstd::arithmetic::div_mod::lemma_div_multiples_vanish(revenues as int, BASIS_POINTS as int);
    assert(revenues * BASIS_POINTS == BASIS_POINTS * revenues) by (nonlinear_arith);
    assert(0 <= revenues * rate_bp) by (nonlinear_arith);
}

} // verus!
