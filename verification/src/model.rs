//! The estimator as a state machine over plain values.
//!
//! [`EstimatorState`] is what an estimator remembers, [`Round`] is what one
//! round trip tells it, and the spec functions here say, step by step, what
//! each check decides and what it leaves behind. The executable
//! [`Estimator`](crate::estimator::Estimator) is specified against them.

use crate::counter::saturating_sum;
use crate::sample::{inflight_too_high, RateSample};
use vstd::prelude::*;

verus! {

/// Numerator of the growth the maximum bandwidth has to show over the
/// baseline to count as still growing: a factor of 5/4, that is 25% more.
pub const DELIVERY_RATE_INCREASE_NUMER: u64 = 5;

/// Denominator of that growth factor.
pub const DELIVERY_RATE_INCREASE_DENOM: u64 = 4;

/// Rounds without enough growth after which the bandwidth has plateaued.
pub const BANDWIDTH_PLATEAU_ROUND_COUNT: u8 = 3;

/// Loss bursts in one round of recovery that show the path is full.
pub const STARTUP_FULL_LOSS_COUNT: u8 = 3;

/// Consecutive rounds of heavy ECN-CE marking that show the path is full.
pub const STARTUP_FULL_ECN_COUNT: u8 = 2;

/// Whether `max_bw` is at least 5/4 of the baseline `full_bw`, compared
/// exactly: no rounding on either side.
pub open spec fn still_growing(full_bw: nat, max_bw: nat) -> bool {
    max_bw * (DELIVERY_RATE_INCREASE_DENOM as nat) >= full_bw * (DELIVERY_RATE_INCREASE_NUMER
        as nat)
}

/// What one round trip reports to the estimator.
pub struct Round {
    /// The round's rate sample was application-limited.
    pub is_app_limited: bool,
    /// The maximum bandwidth seen so far, in bytes per second.
    pub max_bw: nat,
    /// The connection is in fast recovery.
    pub in_recovery: bool,
    /// The round's rate sample shows too much data in flight.
    pub inflight_too_high: bool,
    /// The round's rate of ECN-CE marks is over the threshold.
    pub ecn_ce_count_too_high: bool,
}

impl Round {
    /// The round that the arguments of one `on_round_start` call describe.
    pub open spec fn observed(
        rate_sample: RateSample,
        max_bw: nat,
        in_recovery: bool,
        ecn_ce_count_too_high: bool,
        max_datagram_size: u16,
    ) -> Round {
        Round {
            is_app_limited: rate_sample.is_app_limited,
            max_bw,
            in_recovery,
            inflight_too_high: inflight_too_high(rate_sample, max_datagram_size),
            ecn_ce_count_too_high,
        }
    }
}

/// The check that declares the pipe full.
pub enum Cause {
    /// The maximum bandwidth stopped growing.
    BandwidthPlateau,
    /// Bursty loss went on through a whole round of recovery.
    ExcessiveInflight,
    /// ECN-CE marking stayed heavy over consecutive rounds.
    ExplicitCongestion,
}

/// Something the congestion controller tells the estimator.
pub enum Event {
    /// A new round trip started.
    RoundStart(Round),
    /// A packet was declared lost.
    PacketLost {
        /// The loss starts a new burst, apart from the losses before it.
        new_loss_burst: bool,
    },
}

/// What the estimator remembers between calls.
pub struct EstimatorState {
    /// The pipe was found full. Never taken back.
    pub filled_pipe: bool,
    /// The baseline that the maximum bandwidth has to outgrow.
    pub full_bw: nat,
    /// Rounds in a row, application-limited ones aside, without enough growth.
    pub full_bw_count: u8,
    /// Loss bursts since the last round start.
    pub loss_bursts: u8,
    /// Rounds in a row with heavy ECN-CE marking.
    pub ecn_ce_rounds: u8,
    /// The connection was in fast recovery at the last round start.
    pub in_recovery_last_round: bool,
}

impl EstimatorState {
    /// The state of a new connection.
    pub open spec fn initial() -> EstimatorState {
        EstimatorState {
            filled_pipe: false,
            full_bw: 0,
            full_bw_count: 0,
            loss_bursts: 0,
            ecn_ce_rounds: 0,
            in_recovery_last_round: false,
        }
    }

    /// What the plateau check leaves behind. An application-limited round
    /// changes nothing; enough growth records a new baseline and restarts the
    /// count; anything else is one more round without growth.
    pub open spec fn after_plateau_check(self, is_app_limited: bool, max_bw: nat) -> EstimatorState {
        if is_app_limited {
            self
        } else if still_growing(self.full_bw, max_bw) {
            EstimatorState { full_bw: max_bw, full_bw_count: 0, ..self }
        } else {
            EstimatorState { full_bw_count: saturating_sum(self.full_bw_count, 1), ..self }
        }
    }

    /// The plateau check fires: the round is not application-limited, the
    /// bandwidth did not grow enough, and with this round that has happened
    /// three times in a row.
    pub open spec fn bandwidth_plateaued(self, is_app_limited: bool, max_bw: nat) -> bool {
        &&& !is_app_limited
        &&& !still_growing(self.full_bw, max_bw)
        &&& saturating_sum(self.full_bw_count, 1) >= BANDWIDTH_PLATEAU_ROUND_COUNT
    }

    /// The loss check fires: in recovery now and at the last round start,
    /// too much in flight, and at least three loss bursts since then.
    pub open spec fn excessive_inflight(self, in_recovery: bool, inflight_too_high: bool) -> bool {
        &&& in_recovery
        &&& self.in_recovery_last_round
        &&& inflight_too_high
        &&& self.loss_bursts >= STARTUP_FULL_LOSS_COUNT
    }

    /// What the loss check leaves behind. Where it fires it keeps its
    /// evidence; otherwise it notes whether the connection is in recovery and
    /// starts counting bursts afresh.
    pub open spec fn after_inflight_check(
        self,
        in_recovery: bool,
        inflight_too_high: bool,
    ) -> EstimatorState {
        if self.excessive_inflight(in_recovery, inflight_too_high) {
            self
        } else {
            EstimatorState { in_recovery_last_round: in_recovery, loss_bursts: 0, ..self }
        }
    }

    /// What the ECN check leaves behind: one more heavy round, or none.
    pub open spec fn after_ecn_check(self, ecn_ce_count_too_high: bool) -> EstimatorState {
        if ecn_ce_count_too_high {
            EstimatorState { ecn_ce_rounds: saturating_sum(self.ecn_ce_rounds, 1), ..self }
        } else {
            EstimatorState { ecn_ce_rounds: 0, ..self }
        }
    }

    /// The ECN check fires: with this round, marking has been heavy for two
    /// rounds in a row.
    pub open spec fn excessive_explicit_congestion(self, ecn_ce_count_too_high: bool) -> bool {
        &&& ecn_ce_count_too_high
        &&& saturating_sum(self.ecn_ce_rounds, 1) >= STARTUP_FULL_ECN_COUNT
    }

    /// The check that fills the pipe in `round`, if any does. The checks are
    /// asked in a fixed order and the first to fire settles the round. Each
    /// reads its own part of the state only, so each can be asked of the state
    /// at the start of the round.
    pub open spec fn verdict(self, round: Round) -> Option<Cause> {
        if self.bandwidth_plateaued(round.is_app_limited, round.max_bw) {
            Some(Cause::BandwidthPlateau)
        } else if self.excessive_inflight(round.in_recovery, round.inflight_too_high) {
            Some(Cause::ExcessiveInflight)
        } else if self.excessive_explicit_congestion(round.ecn_ce_count_too_high) {
            Some(Cause::ExplicitCongestion)
        } else {
            None
        }
    }

    /// The loss check or the ECN check, not the plateau check, fills the pipe
    /// in `round`.
    pub open spec fn congestion_verdict(self, round: Round) -> bool {
        ||| self.verdict(round) == Some(Cause::ExcessiveInflight)
        ||| self.verdict(round) == Some(Cause::ExplicitCongestion)
    }

    /// The state after a round start. A full pipe stays as it is. Otherwise
    /// the checks run in order up to the first that fires, each leaving its
    /// mark; the checks after that one do not run and leave none.
    pub open spec fn on_round_start(self, round: Round) -> EstimatorState {
        if self.filled_pipe {
            self
        } else {
            let plateau_checked = self.after_plateau_check(round.is_app_limited, round.max_bw);
            let inflight_checked = plateau_checked.after_inflight_check(
                round.in_recovery,
                round.inflight_too_high,
            );
            let ecn_checked = inflight_checked.after_ecn_check(round.ecn_ce_count_too_high);
            match self.verdict(round) {
                Some(Cause::BandwidthPlateau) => EstimatorState {
                    filled_pipe: true,
                    ..plateau_checked
                },
                Some(Cause::ExcessiveInflight) => EstimatorState {
                    filled_pipe: true,
                    ..inflight_checked
                },
                Some(Cause::ExplicitCongestion) => EstimatorState {
                    filled_pipe: true,
                    ..ecn_checked
                },
                None => ecn_checked,
            }
        }
    }

    /// The state after a lost packet: one more burst if the loss starts one
    /// and the pipe is not full yet, no change otherwise.
    pub open spec fn on_packet_lost(self, new_loss_burst: bool) -> EstimatorState {
        if self.filled_pipe || !new_loss_burst {
            self
        } else {
            EstimatorState { loss_bursts: saturating_sum(self.loss_bursts, 1), ..self }
        }
    }

    /// The state after one event.
    pub open spec fn after_event(self, event: Event) -> EstimatorState {
        match event {
            Event::RoundStart(round) => self.on_round_start(round),
            Event::PacketLost { new_loss_burst } => self.on_packet_lost(new_loss_burst),
        }
    }

    /// The state after a sequence of events, taken in order.
    pub open spec fn after_events(self, events: Seq<Event>) -> EstimatorState
        decreases events.len(),
    {
        if events.len() == 0 {
            self
        } else {
            self.after_events(events.drop_last()).after_event(events.last())
        }
    }

    /// The state just before the event at `index` of a sequence of events.
    pub open spec fn before_event(self, events: Seq<Event>, index: int) -> EstimatorState {
        self.after_events(events.take(index))
    }

    /// The check that turns the pipe from not full to full at the event at
    /// `index` of a sequence of events, if that happens there.
    pub open spec fn filled_at(self, events: Seq<Event>, index: int) -> Option<Cause> {
        match events[index] {
            Event::RoundStart(round) => if self.before_event(events, index).filled_pipe {
                None
            } else {
                self.before_event(events, index).verdict(round)
            },
            Event::PacketLost { .. } => None,
        }
    }
}

/// No event of the sequence is a round start.
pub open spec fn only_packet_losses(events: Seq<Event>) -> bool {
    forall|i: int| 0 <= i < events.len() ==> #[trigger] events[i] is PacketLost
}

/// Every round start of the sequence is application-limited.
pub open spec fn only_app_limited_rounds(events: Seq<Event>) -> bool {
    forall|i: int|
        0 <= i < events.len() ==> (#[trigger] events[i] matches Event::RoundStart(round)
            ==> round.is_app_limited)
}

/// The number of events of the sequence that report a new loss burst.
pub open spec fn new_loss_bursts(events: Seq<Event>) -> nat
    decreases events.len(),
{
    if events.len() == 0 {
        0
    } else {
        new_loss_bursts(events.drop_last()) + if events.last() matches Event::PacketLost {
            new_loss_burst: true,
        } {
            1nat
        } else {
            0nat
        }
    }
}

} // verus!
