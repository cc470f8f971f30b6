use full_pipe::{Bandwidth, Estimator, RateSample, MINIMUM_MTU, NANOS_PER_SECOND};
use num_rational::Ratio;

fn scaled(bandwidth: Bandwidth, ratio: Ratio<u64>) -> Bandwidth {
    bandwidth.scale(*ratio.numer(), *ratio.denom()).unwrap()
}

#[test]
fn bandwidth_plateau() {
    let mut fp_estimator = Estimator::default();
    let rate_sample = RateSample::default();
    let mut max_bw = Bandwidth::new(1000, NANOS_PER_SECOND);
    fp_estimator.on_round_start(rate_sample, max_bw, false, false, MINIMUM_MTU);

    // Grow by a third, then hold for the rest of 3 rounds
    max_bw = scaled(max_bw, Ratio::new(4, 3));
    for _ in 0..3 {
        fp_estimator.on_round_start(rate_sample, max_bw, false, false, MINIMUM_MTU);
    }
    // The pipe has not been filled yet since we have continued to grow bandwidth
    assert!(!fp_estimator.filled_pipe());

    // One more round with 24% growth, not growing fast enough to continue
    max_bw = scaled(max_bw, Ratio::new(31, 25)); // 31/25 = 124%
    fp_estimator.on_round_start(rate_sample, max_bw, false, false, MINIMUM_MTU);
    // The pipe is considered full
    assert!(fp_estimator.filled_pipe());
}

#[test]
fn bandwidth_plateau_app_limited() {
    let mut fp_estimator = Estimator::default();
    let rate_sample = RateSample {
        is_app_limited: true,
        ..Default::default()
    };
    let max_bw = Bandwidth::new(1000, NANOS_PER_SECOND);

    // No growth, but app limited
    for _ in 0..3 {
        fp_estimator.on_round_start(rate_sample, max_bw, false, false, MINIMUM_MTU);
    }

    // The pipe has not been filled yet since we were app limited
    assert!(!fp_estimator.filled_pipe());
}

#[test]
fn excessive_inflight_due_to_loss() {
    let mut fp_estimator = Estimator::default();
    let rate_sample = RateSample {
        // Set app_limited to true to ignore bandwidth plateau check
        is_app_limited: true,
        // More than 2% bytes lost
        bytes_in_flight: 1000,
        lost_bytes: 21,
        ..Default::default()
    };
    let max_bw = Bandwidth::new(1000, NANOS_PER_SECOND);

    // In recovery the first round
    fp_estimator.on_round_start(rate_sample, max_bw, true, false, MINIMUM_MTU);

    // Only 2 loss bursts, not enough to be considered excessive loss
    fp_estimator.on_packet_lost(true);
    fp_estimator.on_packet_lost(true);

    fp_estimator.on_round_start(rate_sample, max_bw, true, false, MINIMUM_MTU);
    // The pipe has not been filled yet since there were only 2 loss bursts
    assert!(!fp_estimator.filled_pipe());

    // 3 loss bursts, enough to be considered excessive loss
    fp_estimator.on_packet_lost(true);
    fp_estimator.on_packet_lost(true);
    fp_estimator.on_packet_lost(true);

    fp_estimator.on_round_start(rate_sample, max_bw, true, false, MINIMUM_MTU);
    // The pipe has been filled due to loss
    assert!(fp_estimator.filled_pipe());
}

#[test]
fn excessive_inflight_due_to_ecn_ce() {
    let mut fp_estimator = Estimator::default();
    let rate_sample = RateSample {
        // Set app_limited to true to ignore bandwidth plateau check
        is_app_limited: true,
        // Over half of the delivered datagrams had ECN CE markings
        ecn_ce_count: 5,
        delivered_bytes: 9 * MINIMUM_MTU as u64,
        ..Default::default()
    };
    let max_bw = Bandwidth::new(1000, NANOS_PER_SECOND);

    // In recovery the first round
    fp_estimator.on_round_start(rate_sample, max_bw, true, false, MINIMUM_MTU);

    // Only 2 loss bursts, not enough to be considered excessive loss
    fp_estimator.on_packet_lost(true);
    fp_estimator.on_packet_lost(true);

    fp_estimator.on_round_start(rate_sample, max_bw, true, false, MINIMUM_MTU);
    // The pipe has not been filled yet since there were only 2 loss bursts
    assert!(!fp_estimator.filled_pipe());

    // 3 loss bursts, enough to be considered excessive loss
    fp_estimator.on_packet_lost(true);
    fp_estimator.on_packet_lost(true);
    fp_estimator.on_packet_lost(true);

    fp_estimator.on_round_start(rate_sample, max_bw, true, false, MINIMUM_MTU);
    // The pipe has been filled due to ECN
    assert!(fp_estimator.filled_pipe());
}

#[test]
fn excessive_inflight_loss_rate_too_low() {
    let mut fp_estimator = Estimator::default();
    let rate_sample = RateSample {
        // Set app_limited to true to ignore bandwidth plateau check
        is_app_limited: true,
        // Too few bytes lost to be considered excessive
        bytes_in_flight: 1000,
        lost_bytes: 2,
        ..Default::default()
    };
    let max_bw = Bandwidth::new(1000, NANOS_PER_SECOND);

    // In recovery the first round
    fp_estimator.on_round_start(rate_sample, max_bw, true, false, MINIMUM_MTU);

    // 3 loss bursts, enough to be considered excessive loss
    fp_estimator.on_packet_lost(true);
    fp_estimator.on_packet_lost(true);
    fp_estimator.on_packet_lost(true);

    fp_estimator.on_round_start(rate_sample, max_bw, true, false, MINIMUM_MTU);
    // The pipe has not been filled yet since the loss rate was not high enough
    assert!(!fp_estimator.filled_pipe());
}

#[test]
fn excessive_inflight_not_in_recovery_long_enough() {
    let mut fp_estimator = Estimator::default();
    let rate_sample = RateSample {
        // Set app_limited to true to ignore bandwidth plateau check
        is_app_limited: true,
        // More than 2% bytes lost
        bytes_in_flight: 1000,
        lost_bytes: 21,
        ..Default::default()
    };
    let max_bw = Bandwidth::new(1000, NANOS_PER_SECOND);

    // Not in recovery the first round
    fp_estimator.on_round_start(rate_sample, max_bw, false, false, MINIMUM_MTU);

    // 3 loss bursts, enough to be considered excessive loss
    fp_estimator.on_packet_lost(true);
    fp_estimator.on_packet_lost(true);
    fp_estimator.on_packet_lost(true);

    fp_estimator.on_round_start(rate_sample, max_bw, true, false, MINIMUM_MTU);
    // The pipe has not been filled yet since we haven't been in recovery for a full round
    assert!(!fp_estimator.filled_pipe());
}

#[test]
fn excessive_explicit_congestion() {
    let mut fp_estimator = Estimator::default();
    let rate_sample = RateSample {
        // Set app_limited to true to ignore bandwidth plateau check
        is_app_limited: true,
        ..Default::default()
    };

    let max_bw = Bandwidth::new(1000, NANOS_PER_SECOND);

    fp_estimator.on_round_start(rate_sample, max_bw, false, true, MINIMUM_MTU);
    // The pipe has not been filled yet since there was only one round with high ECN CE markings
    assert!(!fp_estimator.filled_pipe());

    fp_estimator.on_round_start(rate_sample, max_bw, false, false, MINIMUM_MTU);
    fp_estimator.on_round_start(rate_sample, max_bw, false, true, MINIMUM_MTU);
    // The pipe has not been filled yet since the low ecn rate sample reset the count,
    // ie the high ecn rate samples were not contiguous
    assert!(!fp_estimator.filled_pipe());

    fp_estimator.on_round_start(rate_sample, max_bw, false, true, MINIMUM_MTU);
    // After two consecutive rounds of high ECN markings, the pipe is full
    assert!(fp_estimator.filled_pipe());
}
