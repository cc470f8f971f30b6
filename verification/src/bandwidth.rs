//! Delivery rates.

use crate::ratio::{ratio_scale, scaled};
use vstd::prelude::*;

verus! {

/// Nanoseconds in one second.
pub const NANOS_PER_SECOND: u64 = 1_000_000_000;

/// The rate, in whole bytes per second, of `bytes` delivered over
/// `interval_nanos` nanoseconds: zero over an empty interval, and held at
/// `u64::MAX` where the quotient is larger.
pub open spec fn bytes_per_second(bytes: nat, interval_nanos: nat) -> nat {
    if interval_nanos == 0 {
        0
    } else if bytes * (NANOS_PER_SECOND as nat) / interval_nanos <= u64::MAX as nat {
        bytes * (NANOS_PER_SECOND as nat) / interval_nanos
    } else {
        u64::MAX as nat
    }
}

/// A rate at which data is delivered, in whole bytes per second.
///
/// Its view is that number.
#[derive(Clone, Copy, Debug)]
pub struct Bandwidth {
    bytes_per_second: u64,
}

impl View for Bandwidth {
    type V = nat;

    closed spec fn view(&self) -> nat {
        self.bytes_per_second as nat
    }
}

impl Bandwidth {
    /// No bandwidth at all.
    pub fn zero() -> (bandwidth: Bandwidth)
        ensures
            bandwidth@ == 0,
    {
        Bandwidth { bytes_per_second: 0 }
    }

    /// The bandwidth of `bytes` delivered over `interval_nanos` nanoseconds.
    pub fn new(bytes: u64, interval_nanos: u64) -> (bandwidth: Bandwidth)
        ensures
            bandwidth@ == bytes_per_second(bytes as nat, interval_nanos as nat),
    {
        if interval_nanos == 0 {
            return Bandwidth::zero();
        }
        assert(bytes * NANOS_PER_SECOND <= u64::MAX * NANOS_PER_SECOND) by (nonlinear_arith);
        let scaled_bytes: u128 = (bytes as u128) * (NANOS_PER_SECOND as u128);
        let rate: u128 = scaled_bytes / (interval_nanos as u128);
        if rate <= u64::MAX as u128 {
            Bandwidth { bytes_per_second: rate as u64 }
        } else {
            Bandwidth { bytes_per_second: u64::MAX }
        }
    }

    /// The rate in bytes per second.
    pub fn as_bytes_per_second(&self) -> (rate: u64)
        ensures
            rate as nat == self@,
    {
        self.bytes_per_second
    }

    /// This bandwidth times `numer / denom`, rounded down to whole bytes per
    /// second. There is no answer for a zero denominator, nor where the rate
    /// times `numer` does not fit in 64 bits.
    pub fn scale(self, numer: u64, denom: u64) -> (product: Option<Bandwidth>)
        ensures
            product.is_some() <==> denom != 0 && self@ * numer <= u64::MAX,
            product.is_some() ==> product.unwrap()@ == scaled(self@, numer as nat, denom as nat),
    {
        if denom == 0 {
            return None;
        }
        match self.bytes_per_second.checked_mul(numer) {
            Some(_) => Some(
                Bandwidth { bytes_per_second: ratio_scale(self.bytes_per_second, numer, denom) },
            ),
            None => None,
        }
    }
}

impl Default for Bandwidth {
    fn default() -> (bandwidth: Bandwidth)
        ensures
            bandwidth@ == 0,
    {
        Bandwidth::zero()
    }
}

} // verus!
