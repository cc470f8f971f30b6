//! The executable estimator.

use crate::bandwidth::Bandwidth;
use crate::counter::Counter;
use crate::model::{
    EstimatorState, Round, BANDWIDTH_PLATEAU_ROUND_COUNT, DELIVERY_RATE_INCREASE_DENOM,
    DELIVERY_RATE_INCREASE_NUMER, STARTUP_FULL_ECN_COUNT, STARTUP_FULL_LOSS_COUNT,
};
use crate::ratio::ratio_ge;
use crate::sample::{inflight_too_high, is_inflight_too_high, RateSample};
use vstd::prelude::*;

verus! {

/// Estimates, during Startup, whether the connection has filled the pipe:
/// used all the bandwidth there is to find.
///
/// Its view is an [`EstimatorState`].
#[derive(Debug)]
pub struct Estimator {
    /// The pipe was found full.
    filled_pipe: bool,
    /// A recent baseline of the maximum bandwidth.
    full_bw: Bandwidth,
    /// Rounds that were not application-limited and showed no large increase
    /// over `full_bw`.
    full_bw_count: Counter,
    /// Discontiguous bursts of lost packets in the last round.
    loss_bursts: Counter,
    /// Rounds in which the ECN-CE markings were over the threshold.
    ecn_ce_rounds: Counter,
    /// The connection was in fast recovery in the last round.
    in_recovery_last_round: bool,
}

impl View for Estimator {
    type V = EstimatorState;

    closed spec fn view(&self) -> EstimatorState {
        EstimatorState {
            filled_pipe: self.filled_pipe,
            full_bw: self.full_bw@,
            full_bw_count: self.full_bw_count@,
            loss_bursts: self.loss_bursts@,
            ecn_ce_rounds: self.ecn_ce_rounds@,
            in_recovery_last_round: self.in_recovery_last_round,
        }
    }
}

impl Default for Estimator {
    /// The estimator of a new connection.
    fn default() -> (estimator: Estimator)
        ensures
            estimator@ == EstimatorState::initial(),
    {
        Estimator {
            filled_pipe: false,
            full_bw: Bandwidth::zero(),
            full_bw_count: Counter::new(),
            loss_bursts: Counter::new(),
            ecn_ce_rounds: Counter::new(),
            in_recovery_last_round: false,
        }
    }
}

impl Clone for Estimator {
    fn clone(&self) -> (copy: Estimator)
        ensures
            copy@ == self@,
    {
        Estimator {
            filled_pipe: self.filled_pipe,
            full_bw: self.full_bw,
            full_bw_count: self.full_bw_count,
            loss_bursts: self.loss_bursts,
            ecn_ce_rounds: self.ecn_ce_rounds,
            in_recovery_last_round: self.in_recovery_last_round,
        }
    }
}

impl Estimator {
    /// Whether the estimator has ever found the pipe full.
    pub fn filled_pipe(&self) -> (filled: bool)
        ensures
            filled == self@.filled_pipe,
    {
        self.filled_pipe
    }

    /// Called at the start of each round trip.
    ///
    /// Does nothing once the pipe is full. Otherwise asks the three checks in
    /// order (bandwidth plateau, excessive inflight, explicit congestion),
    /// stops at the first that fires, and records whether one did.
    pub fn on_round_start(
        &mut self,
        rate_sample: RateSample,
        max_bw: Bandwidth,
        in_recovery: bool,
        ecn_ce_count_too_high: bool,
        max_datagram_size: u16,
    )
        ensures
            final(self)@ == old(self)@.on_round_start(
                Round::observed(
                    rate_sample,
                    max_bw@,
                    in_recovery,
                    ecn_ce_count_too_high,
                    max_datagram_size,
                ),
            ),
            old(self)@.filled_pipe ==> final(self)@ == old(self)@,
            !old(self)@.filled_pipe ==> final(self)@.filled_pipe == old(self)@.verdict(
                Round::observed(
                    rate_sample,
                    max_bw@,
                    in_recovery,
                    ecn_ce_count_too_high,
                    max_datagram_size,
                ),
            ).is_some(),
    {
        if self.filled_pipe {
            return ;
        }
        self.filled_pipe = self.bandwidth_plateaued(rate_sample, max_bw)
            || self.excessive_inflight(rate_sample, in_recovery, max_datagram_size)
            || self.excessive_explicit_congestion(ecn_ce_count_too_high);
    }

    /// Decides whether the bandwidth has stopped growing: whether this is the
    /// third round in a row, application-limited rounds aside, in which the
    /// maximum bandwidth stayed below 5/4 of the baseline.
    fn bandwidth_plateaued(&mut self, rate_sample: RateSample, max_bw: Bandwidth) -> (plateaued:
        bool)
        ensures
            plateaued == old(self)@.bandwidth_plateaued(rate_sample.is_app_limited, max_bw@),
            final(self)@ == old(self)@.after_plateau_check(rate_sample.is_app_limited, max_bw@),
    {
        if rate_sample.is_app_limited {
            // Growth cannot be judged while the sender does not fill the path.
            return false;
        }
        let baseline: u64 = self.full_bw.as_bytes_per_second();
        let still_growing = baseline == 0 || ratio_ge(
            max_bw.as_bytes_per_second(),
            baseline,
            DELIVERY_RATE_INCREASE_NUMER,
            DELIVERY_RATE_INCREASE_DENOM,
        );
        if still_growing {
            // Record the new baseline and restart the count.
            self.full_bw = max_bw;
            self.full_bw_count.reset();
            return false;
        }
        // Another round without much growth.
        self.full_bw_count.saturating_add(1);
        self.full_bw_count.value() >= BANDWIDTH_PLATEAU_ROUND_COUNT
    }

    /// Decides whether loss has been heavy for long enough: in recovery for
    /// a full round, too much in flight, and enough loss bursts in the round.
    fn excessive_inflight(
        &mut self,
        rate_sample: RateSample,
        in_recovery: bool,
        max_datagram_size: u16,
    ) -> (excessive: bool)
        ensures
            excessive == old(self)@.excessive_inflight(
                in_recovery,
                inflight_too_high(rate_sample, max_datagram_size),
            ),
            final(self)@ == old(self)@.after_inflight_check(
                in_recovery,
                inflight_too_high(rate_sample, max_datagram_size),
            ),
    {
        if in_recovery && self.in_recovery_last_round && is_inflight_too_high(
            rate_sample,
            max_datagram_size,
        ) && self.loss_bursts.value() >= STARTUP_FULL_LOSS_COUNT {
            return true;
        }
        self.in_recovery_last_round = in_recovery;
        self.loss_bursts.reset();
        false
    }

    /// Decides whether explicit congestion has gone on for enough rounds in
    /// a row.
    fn excessive_explicit_congestion(&mut self, ecn_ce_count_too_high: bool) -> (excessive: bool)
        ensures
            excessive == old(self)@.excessive_explicit_congestion(ecn_ce_count_too_high),
            final(self)@ == old(self)@.after_ecn_check(ecn_ce_count_too_high),
    {
        if ecn_ce_count_too_high {
            self.ecn_ce_rounds.saturating_add(1);
        } else {
            self.ecn_ce_rounds.reset();
        }
        self.ecn_ce_rounds.value() >= STARTUP_FULL_ECN_COUNT
    }

    /// Called for each lost packet, before the round start that is to count it.
    ///
    /// Does nothing once the pipe is full. Otherwise a loss that starts a new
    /// burst is counted; no other loss changes anything.
    pub fn on_packet_lost(&mut self, new_loss_burst: bool)
        ensures
            final(self)@ == old(self)@.on_packet_lost(new_loss_burst),
            old(self)@.filled_pipe ==> final(self)@ == old(self)@,
    {
        if self.filled_pipe {
            return ;
        }
        if new_loss_burst {
            self.loss_bursts.saturating_add(1);
        }
    }
}

} // verus!
