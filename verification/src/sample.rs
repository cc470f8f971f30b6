//! Per-round rate samples, and the judgement whether a round had too much
//! data in flight.

use crate::ratio::{fraction_gt, ratio_gt};
use vstd::prelude::*;

verus! {

/// The smallest maximum datagram size a path can have, in bytes.
pub const MINIMUM_MTU: u16 = 1200;

/// Loss threshold: more than one byte lost in fifty bytes in flight is too much.
pub const LOSS_THRESH_NUMER: u64 = 1;

/// Denominator of the loss threshold.
pub const LOSS_THRESH_DENOM: u64 = 50;

/// ECN threshold: more than one datagram in two marked congestion-experienced
/// is too much.
pub const ECN_THRESH_NUMER: u64 = 1;

/// Denominator of the ECN threshold.
pub const ECN_THRESH_DENOM: u64 = 2;

/// What the delivery-rate estimator measured over one round.
#[derive(Clone, Copy, Debug)]
pub struct RateSample {
    /// The sender had too little data queued to fill the path.
    pub is_app_limited: bool,
    /// Bytes in flight when the sampled packet was sent.
    pub bytes_in_flight: u32,
    /// Bytes declared lost over the sample.
    pub lost_bytes: u64,
    /// Bytes acknowledged over the sample.
    pub delivered_bytes: u64,
    /// ECN congestion-experienced marks reported over the sample.
    pub ecn_ce_count: u64,
}

impl Default for RateSample {
    fn default() -> (sample: RateSample)
        ensures
            sample == (RateSample {
                is_app_limited: false,
                bytes_in_flight: 0,
                lost_bytes: 0,
                delivered_bytes: 0,
                ecn_ce_count: 0,
            }),
    {
        RateSample {
            is_app_limited: false,
            bytes_in_flight: 0,
            lost_bytes: 0,
            delivered_bytes: 0,
            ecn_ce_count: 0,
        }
    }
}

/// The share of lost bytes among the bytes in flight is over the loss threshold.
pub open spec fn loss_too_high(sample: RateSample) -> bool {
    fraction_gt(
        sample.lost_bytes as nat,
        sample.bytes_in_flight as nat,
        LOSS_THRESH_NUMER as nat,
        LOSS_THRESH_DENOM as nat,
    )
}

/// Something was delivered, and the share of it that was marked
/// congestion-experienced, counting each mark as one full datagram, is over
/// the ECN threshold.
pub open spec fn ecn_ce_too_high(sample: RateSample, max_datagram_size: u16) -> bool {
    sample.delivered_bytes > 0 && fraction_gt(
        sample.ecn_ce_count as nat * max_datagram_size as nat,
        sample.delivered_bytes as nat,
        ECN_THRESH_NUMER as nat,
        ECN_THRESH_DENOM as nat,
    )
}

/// The round had too much data in flight: by loss or by ECN marks.
pub open spec fn inflight_too_high(sample: RateSample, max_datagram_size: u16) -> bool {
    loss_too_high(sample) || ecn_ce_too_high(sample, max_datagram_size)
}

/// Judges whether the loss rate or the rate of ECN congestion-experienced
/// marks of `rate_sample` shows too much data in flight.
pub fn is_inflight_too_high(rate_sample: RateSample, max_datagram_size: u16) -> (too_high: bool)
    ensures
        too_high == inflight_too_high(rate_sample, max_datagram_size),
{
    if is_loss_too_high(rate_sample.lost_bytes, rate_sample.bytes_in_flight) {
        return true;
    }
    is_ecn_ce_too_high(
        rate_sample.ecn_ce_count,
        rate_sample.delivered_bytes,
        max_datagram_size,
    )
}

fn is_loss_too_high(lost_bytes: u64, bytes_in_flight: u32) -> (too_high: bool)
    ensures
        too_high == fraction_gt(
            lost_bytes as nat,
            bytes_in_flight as nat,
            LOSS_THRESH_NUMER as nat,
            LOSS_THRESH_DENOM as nat,
        ),
{
    if bytes_in_flight == 0 {
        // Any loss at all is over the threshold when nothing was in flight.
        return lost_bytes > 0;
    }
    ratio_gt(lost_bytes, bytes_in_flight as u64, LOSS_THRESH_NUMER, LOSS_THRESH_DENOM)
}

fn is_ecn_ce_too_high(ecn_ce_count: u64, delivered_bytes: u64, max_datagram_size: u16) -> (too_high:
    bool)
    ensures
        too_high == (delivered_bytes > 0 && fraction_gt(
            ecn_ce_count as nat * max_datagram_size as nat,
            delivered_bytes as nat,
            ECN_THRESH_NUMER as nat,
            ECN_THRESH_DENOM as nat,
        )),
{
    if delivered_bytes == 0 {
        return false;
    }
    match ecn_ce_count.checked_mul(max_datagram_size as u64) {
        Some(marked_bytes) => ratio_gt(
            marked_bytes,
            delivered_bytes,
            ECN_THRESH_NUMER,
            ECN_THRESH_DENOM,
        ),
        None => {
            // More marked bytes than 64 bits hold: over any share of what
            // 64 bits can count as delivered.
            true
        },
    }
}

} // verus!
