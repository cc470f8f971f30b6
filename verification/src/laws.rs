//! What holds of the estimator over whole runs of events.
//!
//! Each law is a proof about the state machine of [`crate::model`], which
//! the executable estimator follows step by step.

use crate::counter::saturating_sum;
use crate::model::{
    new_loss_bursts, only_app_limited_rounds, only_packet_losses, still_growing, Cause,
    EstimatorState, Event, Round, STARTUP_FULL_LOSS_COUNT,
};
use vstd::prelude::*;

verus! {

/// A full pipe is final: once `filled_pipe` is true, no event of any kind
/// changes any part of the state.
pub proof fn lemma_filled_pipe_is_final(state: EstimatorState, events: Seq<Event>)
    requires
        state.filled_pipe,
    ensures
        state.after_events(events) == state,
    decreases events.len(),
{
    if events.len() > 0 {
        lemma_filled_pipe_is_final(state, events.drop_last());
    }
}

/// `filled_pipe` only ever goes from false to true: if the pipe is full
/// after the first `index` events of a run, it is full at the end of the run,
/// and the state at the end is the state it had then.
pub proof fn lemma_filled_pipe_is_monotonic(state: EstimatorState, events: Seq<Event>, index: int)
    requires
        0 <= index <= events.len(),
        state.before_event(events, index).filled_pipe,
    ensures
        state.after_events(events).filled_pipe,
        state.after_events(events) == state.before_event(events, index),
    decreases events.len(),
{
    if index == events.len() {
        assert(events.take(index) =~= events);
    } else {
        assert(events.drop_last().take(index) =~= events.take(index));
        lemma_filled_pipe_is_monotonic(state, events.drop_last(), index);
    }
}

/// The plateau check needs exactly three rounds. From a fresh baseline (a
/// count of zero), let three rounds in a row be neither application-limited
/// nor show the maximum bandwidth at 5/4 of the baseline. Then the plateau
/// check fires in neither of the first two, so after two rounds the pipe is
/// full only if the loss or the ECN check fired in one of them; and after the
/// third round the pipe is full, by the plateau check if by no other.
pub proof fn lemma_plateau_on_third_round(
    state: EstimatorState,
    first: Round,
    second: Round,
    third: Round,
)
    requires
        !state.filled_pipe,
        state.full_bw_count == 0,
        !first.is_app_limited && !still_growing(state.full_bw, first.max_bw),
        !second.is_app_limited && !still_growing(state.full_bw, second.max_bw),
        !third.is_app_limited && !still_growing(state.full_bw, third.max_bw),
    ensures
        ({
            let after_first = state.on_round_start(first);
            let after_second = after_first.on_round_start(second);
            let after_third = after_second.on_round_start(third);
            &&& state.verdict(first) != Some(Cause::BandwidthPlateau)
            &&& after_first.verdict(second) != Some(Cause::BandwidthPlateau)
            &&& after_second.filled_pipe <==> state.congestion_verdict(first) || (
            !after_first.filled_pipe && after_first.congestion_verdict(second))
            &&& !after_second.filled_pipe ==> after_second.verdict(third) == Some(
                Cause::BandwidthPlateau,
            )
            &&& after_third.filled_pipe
        }),
{
}

/// Application-limited rounds are no evidence of a plateau. Over any run of
/// events whose round starts are all application-limited, however stagnant
/// the bandwidth, the baseline and the count of rounds without growth stay as
/// they were and the plateau check never fires; if the pipe is filled during
/// the run, the loss check or the ECN check filled it.
pub proof fn lemma_app_limited_rounds_never_plateau(state: EstimatorState, events: Seq<Event>)
    requires
        only_app_limited_rounds(events),
    ensures
        state.after_events(events).full_bw == state.full_bw,
        state.after_events(events).full_bw_count == state.full_bw_count,
        forall|i: int|
            0 <= i < events.len() ==> #[trigger] state.filled_at(events, i) != Some(
                Cause::BandwidthPlateau,
            ),
        state.after_events(events).filled_pipe && !state.filled_pipe ==> exists|i: int|
            0 <= i < events.len() && (#[trigger] state.filled_at(events, i) == Some(
                Cause::ExcessiveInflight,
            ) || state.filled_at(events, i) == Some(Cause::ExplicitCongestion)),
    decreases events.len(),
{
    if events.len() > 0 {
        let earlier = events.drop_last();
        let last = events.len() - 1;
        assert(only_app_limited_rounds(earlier)) by {
            assert forall|i: int| 0 <= i < earlier.len() implies (#[trigger] earlier[i] matches
            Event::RoundStart(round) ==> round.is_app_limited) by {
                assert(earlier[i] == events[i]);
            }
        }
        lemma_app_limited_rounds_never_plateau(state, earlier);
        assert(events.take(last) =~= earlier);
        assert forall|i: int| 0 <= i < earlier.len() implies state.filled_at(events, i)
            == state.filled_at(earlier, i) by {
            assert(events.take(i) =~= earlier.take(i));
            assert(earlier[i] == events[i]);
        }
        assert(events[last] == events.last());
        if state.after_events(events).filled_pipe && !state.filled_pipe {
            if state.after_events(earlier).filled_pipe {
                let i = choose|i: int|
                    0 <= i < earlier.len() && (#[trigger] state.filled_at(earlier, i) == Some(
                        Cause::ExcessiveInflight,
                    ) || state.filled_at(earlier, i) == Some(Cause::ExplicitCongestion));
                assert(state.filled_at(events, i) == state.filled_at(earlier, i));
            } else {
                assert(state.filled_at(events, last) != Some(Cause::BandwidthPlateau));
                assert(state.filled_at(events, last).is_some());
            }
        }
    }
}

/// Packet losses between two round starts only count bursts. Over a run of
/// packet-loss events, an estimator whose pipe is not full adds the number of
/// new loss bursts to `loss_bursts`, holding at the counter's maximum, and
/// changes nothing else.
pub proof fn lemma_packet_losses_count_bursts(state: EstimatorState, losses: Seq<Event>)
    requires
        !state.filled_pipe,
        only_packet_losses(losses),
    ensures
        state.after_events(losses) == (EstimatorState {
            loss_bursts: saturating_sum(state.loss_bursts, new_loss_bursts(losses)),
            ..state
        }),
    decreases losses.len(),
{
    if losses.len() > 0 {
        let earlier = losses.drop_last();
        assert(only_packet_losses(earlier)) by {
            assert forall|i: int| 0 <= i < earlier.len() implies #[trigger] earlier[i]
                is PacketLost by {
                assert(earlier[i] == losses[i]);
            }
        }
        lemma_packet_losses_count_bursts(state, earlier);
        assert(losses[losses.len() - 1] is PacketLost);
    }
}

/// The loss check is gated on a full round of bursty loss in recovery. Take
/// a round start that leaves the pipe not full, then any packet losses, then
/// a second round start. The loss check fires at the second exactly when the
/// connection was in recovery at both round starts, the second round has too
/// much in flight, and at least three new loss bursts were reported in
/// between. So the second round fills the pipe exactly when that holds or one
/// of the other two checks fires.
pub proof fn lemma_inflight_gating(
    state: EstimatorState,
    first: Round,
    losses: Seq<Event>,
    second: Round,
)
    requires
        !state.on_round_start(first).filled_pipe,
        only_packet_losses(losses),
    ensures
        ({
            let before_second = state.on_round_start(first).after_events(losses);
            let full_round_of_bursty_loss = first.in_recovery && second.in_recovery
                && second.inflight_too_high && new_loss_bursts(losses)
                >= STARTUP_FULL_LOSS_COUNT;
            &&& before_second.excessive_inflight(second.in_recovery, second.inflight_too_high)
                <==> full_round_of_bursty_loss
            &&& before_second.on_round_start(second).filled_pipe <==> {
                ||| before_second.bandwidth_plateaued(second.is_app_limited, second.max_bw)
                ||| full_round_of_bursty_loss
                ||| before_second.excessive_explicit_congestion(second.ecn_ce_count_too_high)
            }
        }),
{
    lemma_packet_losses_count_bursts(state.on_round_start(first), losses);
}

/// Two rounds in a row with heavy ECN-CE marking fill the pipe, whatever the
/// state before them and whatever else the rounds report.
pub proof fn lemma_two_ecn_rounds_fill_pipe(state: EstimatorState, first: Round, second: Round)
    requires
        first.ecn_ce_count_too_high,
        second.ecn_ce_count_too_high,
    ensures
        state.on_round_start(first).on_round_start(second).filled_pipe,
{
}

/// Heavy ECN-CE rounds count only in a row. Let a heavy round leave the pipe
/// not full, and let a round without heavy marking and then another heavy
/// round follow. The ECN check fires in neither of the two; the round in
/// between, unless it fills the pipe, puts the count back to zero; and after
/// the three rounds the pipe is full only if the plateau or the loss check
/// fired in one of the last two.
pub proof fn lemma_ecn_gap_restarts_count(
    state: EstimatorState,
    first: Round,
    gap: Round,
    third: Round,
)
    requires
        first.ecn_ce_count_too_high,
        !gap.ecn_ce_count_too_high,
        third.ecn_ce_count_too_high,
        !state.on_round_start(first).filled_pipe,
    ensures
        ({
            let after_first = state.on_round_start(first);
            let after_gap = after_first.on_round_start(gap);
            let after_third = after_gap.on_round_start(third);
            &&& after_first.verdict(gap) != Some(Cause::ExplicitCongestion)
            &&& !after_gap.filled_pipe ==> after_gap.ecn_ce_rounds == 0
            &&& !after_gap.filled_pipe ==> after_gap.verdict(third) != Some(
                Cause::ExplicitCongestion,
            )
            &&& after_third.filled_pipe <==> after_first.verdict(gap).is_some() || (
            !after_gap.filled_pipe && after_gap.verdict(third).is_some())
        }),
{
}

/// A check that fires shields the checks after it. In a round that the
/// plateau check settles, the loss check and the ECN check do not run: the
/// burst count, the recovery note and the count of ECN rounds stay as they
/// were. In a round that the loss check settles, the ECN check does not run,
/// and the loss check keeps its own evidence.
pub proof fn lemma_firing_check_shields_later_checks(state: EstimatorState, round: Round)
    requires
        !state.filled_pipe,
    ensures
        state.verdict(round) == Some(Cause::BandwidthPlateau) ==> {
            &&& state.on_round_start(round).loss_bursts == state.loss_bursts
            &&& state.on_round_start(round).in_recovery_last_round == state.in_recovery_last_round
            &&& state.on_round_start(round).ecn_ce_rounds == state.ecn_ce_rounds
        },
        state.verdict(round) == Some(Cause::ExcessiveInflight) ==> {
            &&& state.on_round_start(round).loss_bursts == state.loss_bursts
            &&& state.on_round_start(round).in_recovery_last_round == state.in_recovery_last_round
            &&& state.on_round_start(round).ecn_ce_rounds == state.ecn_ce_rounds
        },
{
}

/// The baseline never goes down: a round start keeps `full_bw` or replaces it
/// with a maximum bandwidth that is at least 5/4 of it, and a packet loss
/// keeps it.
pub proof fn lemma_full_bw_never_decreases(state: EstimatorState, events: Seq<Event>)
    ensures
        state.after_events(events).full_bw >= state.full_bw,
    decreases events.len(),
{
    if events.len() > 0 {
        lemma_full_bw_never_decreases(state, events.drop_last());
    }
}

} // verus!
