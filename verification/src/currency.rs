//! Conversion between USD and CERE at an exchange rate set by the admin.

use vstd::prelude::*;
use crate::{Balance, TOKEN};

verus! {

pub type CERE = Balance;

pub type USD = Balance;

pub const PRECISION: Balance = 10_000_000;

#[derive(Clone, Copy, PartialEq, Eq, Structural, Debug)]
pub struct CurrencyConverter {
    /// How many USD for PRECISION CERE.
    rate: Balance,
}

impl Default for CurrencyConverter {
    /// The converter at one USD per CERE.
    fn default() -> (c: Self)
        ensures
            c == CurrencyConverter::new_spec(),
    {
        CurrencyConverter { rate: PRECISION }
    }
}

impl CurrencyConverter {
    pub closed spec fn spec_rate(&self) -> int {
        self.rate as int
    }

    /// The converter at one USD per CERE.
    pub closed spec fn new_spec() -> CurrencyConverter {
        CurrencyConverter { rate: PRECISION }
    }

    /// A converter at one USD per CERE.
    pub fn new() -> (c: CurrencyConverter)
        ensures
            c == CurrencyConverter::new_spec(),
            c.spec_rate() == PRECISION,
    {
        CurrencyConverter { rate: PRECISION }
    }

    pub fn set_usd_per_cere(&mut self, usd_per_cere: USD)
        requires
            usd_per_cere * PRECISION <= u128::MAX,
        ensures
            final(self).spec_rate() == usd_per_cere * PRECISION / (TOKEN as int),
    {
        self.rate = usd_per_cere * PRECISION / TOKEN;
    }

    pub fn to_cere(&self, usd: USD) -> (cere: CERE)
        requires
            self.spec_rate() > 0,
            usd * PRECISION <= u128::MAX,
        ensures
            cere == cere_of(self.spec_rate(), usd as int),
    {
        usd * PRECISION / self.rate
    }

    pub fn to_usd(&self, cere: CERE) -> (usd: USD)
        requires
            self.spec_rate() * cere <= u128::MAX,
        ensures
            usd == usd_of(self.spec_rate(), cere as int),
    {
        self.rate * cere / PRECISION
    }
}

pub open spec fn cere_of(rate: int, usd: int) -> int {
    usd * PRECISION / rate
}

pub open spec fn usd_of(rate: int, cere: int) -> int {
    rate * cere / (PRECISION as int)
}

/// Converting USD to CERE and back never yields more USD than went in.
pub proof fn lemma_round_trip_never_gains(rate: int, usd: int)
    requires
        rate > 0,
        usd >= 0,
    ensures
        usd_of(rate, cere_of(rate, usd)) <= usd,
{
    let p = PRECISION as int;
    let c = usd * p / rate;
    vstd::arithmetic::div_mod::lemma_fundamental_div_mod(usd * p, rate);
    assert(rate * c <= usd * p) by (nonlinear_arith)
        requires
            rate > 0,
            usd * p >= 0,
            c == usd * p / rate,
    {
        vstd::arithmetic::div_mod::lemma_fundamental_div_mod(usd * p, rate);
    }
    vstd::arithmetic::div_mod::lemma_div_is_ordered(rate * c, usd * p, p);
    vstd::arithmetic::div_mod::lemma_div_multiples_vanish(usd, p);
    assert(usd * p == p * usd) by (nonlinear_arith);
}

} // verus!
