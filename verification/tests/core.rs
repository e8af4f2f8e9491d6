use std::cell::RefCell;
use std::time::Duration;

use brutal::slots::SlotRing;
use brutal::{BrutalConfigCore, BrutalCore, Double, Moment, Span, WindowInputs};

fn ratio(acks: u64, total: u64) -> Double {
    Double { bits: (acks as f64 / total as f64).to_bits() }
}

fn product(inputs: WindowInputs) -> u64 {
    let rtt = Duration::new(inputs.rtt.as_secs(), inputs.rtt.subsec_nanos()).as_secs_f64();
    let gain = f64::from_bits(inputs.cwnd_gain.bits);
    let ack_rate = f64::from_bits(inputs.ack_rate.bits);
    (inputs.bps as f64 * rtt * gain / ack_rate / 8.0) as u64
}

fn at(secs: u64, millis: u32) -> Moment {
    Moment { since_origin: Span::new(secs, millis * 1_000_000) }
}

fn fast() -> BrutalCore {
    BrutalCore::new(BrutalConfigCore::new(100_000_000), at(10, 500), 1200, &product)
}

fn share(core: &BrutalCore) -> f64 {
    f64::from_bits(core.ack_rate.bits)
}

fn close(core: &mut BrutalCore, now: Moment, acked: u64, lost: u64) {
    core.acked_packets_in_batch = acked;
    core.lost_packets_in_batch = lost;
    assert!(core.batch_fits(now));
    core.on_end_acks(now, &ratio, &product);
}

#[test]
fn defaults() {
    let config = BrutalConfigCore::default();
    assert_eq!(config.default_bandwidth_bps, 1_000_000);
    assert_eq!(config.initial_rtt.as_secs(), 0);
    assert_eq!(config.initial_rtt.subsec_nanos(), 100_000_000);
    assert_eq!(config.min_window, 16 * 1024);
    assert_eq!(f64::from_bits(config.cwnd_gain.bits), 1.25);
    assert_eq!(f64::from_bits(config.min_ack_rate.bits), 0.8);
    assert_eq!(config.min_sample_count, 50);
    assert!(!config.enable_ack_rate_compensation);
}

#[test]
fn config_for_a_bandwidth_keeps_the_other_defaults() {
    let config = BrutalConfigCore::new(42);
    assert_eq!(config.default_bandwidth_bps, 42);
    assert_eq!(config.min_window, 16 * 1024);
    assert_eq!(config.min_sample_count, 50);
    let copy = config.clone();
    assert_eq!(copy.default_bandwidth_bps, 42);
    assert_eq!(copy.cwnd_gain.bits, config.cwnd_gain.bits);
}

#[test]
fn new_controller_starts_from_nothing() {
    let core = fast();
    assert_eq!(core.mtu, 1200);
    assert_eq!(core.bytes_in_flight, 0);
    assert!(core.smoothed_rtt.is_none());
    assert!(core.bandwidth_hint_bps.is_none());
    assert_eq!(share(&core), 1.0);
    assert_eq!(core.acked_packets_in_batch, 0);
    assert_eq!(core.lost_packets_in_batch, 0);
    assert_eq!(core.cwnd, 1_562_500);
}

#[test]
fn initial_window_is_the_cached_one() {
    let core = fast();
    assert_eq!(core.initial_window(&product), 1_562_500);
    assert_eq!(core.window_cached(), 1_562_500);
    assert_eq!(core.window_recomputed(&product), 1_562_500);
}

#[test]
fn window_floor_is_the_configured_minimum() {
    let core = BrutalCore::new(BrutalConfigCore::default(), at(0, 0), 1200, &product);
    assert_eq!(product(core.window_inputs()), 15_625);
    assert_eq!(core.cwnd, 16_384);
}

#[test]
fn window_floor_is_one_packet() {
    let mut config = BrutalConfigCore::new(1);
    config.min_window = 100;
    let core = BrutalCore::new(config, at(0, 0), 9000, &product);
    assert_eq!(core.cwnd, 9000);
    assert_eq!(core.floor_window(0), 9000);
    assert_eq!(core.floor_window(9001), 9001);
}

#[test]
fn window_is_computed_from_the_present_state() {
    let mut core = fast();
    core.update_smoothed_rtt(Span::from_millis(50));
    core.bandwidth_hint_bps = Some(7);
    core.config.enable_ack_rate_compensation = true;
    core.ack_rate = ratio(9, 10);
    let seen: RefCell<Option<WindowInputs>> = RefCell::new(None);
    let window = core.compute_cwnd(&|inputs: WindowInputs| {
        *seen.borrow_mut() = Some(inputs);
        123_456
    });
    assert_eq!(window, 123_456);
    let inputs = seen.borrow().unwrap();
    assert_eq!(inputs.bps, 7);
    assert_eq!(inputs.rtt.subsec_nanos(), 50_000_000);
    assert_eq!(f64::from_bits(inputs.cwnd_gain.bits), 1.25);
    assert_eq!(f64::from_bits(inputs.ack_rate.bits), 0.9);
}

#[test]
fn refresh_changes_only_the_window() {
    let mut core = fast();
    core.on_sent(77);
    core.config.cwnd_gain = Double { bits: 2.0f64.to_bits() };
    assert_eq!(core.window_cached(), 1_562_500);
    core.refresh_cwnd(&product);
    assert_eq!(core.window_cached(), 2_500_000);
    assert_eq!(core.window_recomputed(&product), 2_500_000);
    assert_eq!(core.bytes_in_flight, 77);
}

#[test]
fn round_trip_comes_from_the_last_report() {
    let mut core = fast();
    assert_eq!(core.current_rtt().subsec_nanos(), 100_000_000);
    core.update_smoothed_rtt(Span::from_millis(50));
    assert_eq!(core.current_rtt().subsec_nanos(), 50_000_000);
    assert_eq!(core.window_cached(), 1_562_500);
    core.refresh_cwnd(&product);
    assert_eq!(core.window_cached(), 781_250);
}

#[test]
fn hint_is_the_target_until_dropped() {
    let mut core = fast();
    assert_eq!(core.target_bps(), 100_000_000);
    core.set_peer_bandwidth_hint(Some(200_000_000), &product);
    assert_eq!(core.target_bps(), 200_000_000);
    assert_eq!(core.window_cached(), 3_125_000);
    core.set_peer_bandwidth_hint(None, &product);
    assert_eq!(core.target_bps(), 100_000_000);
    assert_eq!(core.window_cached(), 1_562_500);
}

#[test]
fn packets_are_just_enough() {
    let core = fast();
    assert_eq!(core.estimate_packets(0), 0);
    assert_eq!(core.estimate_packets(1), 1);
    assert_eq!(core.estimate_packets(1199), 1);
    assert_eq!(core.estimate_packets(1200), 1);
    assert_eq!(core.estimate_packets(1201), 2);
    assert_eq!(core.estimate_packets(u64::MAX), u64::MAX.div_ceil(1200));
}

#[test]
fn packets_carry_a_byte_at_least() {
    let mut core = fast();
    core.on_mtu_update(0, &product);
    assert_eq!(core.estimate_packets(17), 17);
    assert_eq!(core.estimate_packets(u64::MAX), u64::MAX);
}

#[test]
fn seconds_count_from_the_start() {
    let core = fast();
    assert_eq!(core.now_sec(at(10, 500)), 0);
    assert_eq!(core.now_sec(at(11, 499)), 0);
    assert_eq!(core.now_sec(at(11, 500)), 1);
    assert_eq!(core.now_sec(at(20, 400)), 9);
    assert_eq!(core.now_sec(at(3, 0)), 0);
}

#[test]
fn ack_undoes_sent() {
    let mut core = fast();
    core.on_sent(5000);
    core.on_sent(2500);
    assert_eq!(core.bytes_in_flight, 7500);
    assert!(core.ack_fits(2500));
    core.on_ack_bytes(2500, Span::from_millis(30));
    assert_eq!(core.bytes_in_flight, 5000);
    assert_eq!(core.acked_packets_in_batch, 3);
    assert_eq!(core.smoothed_rtt.unwrap().subsec_nanos(), 30_000_000);
}

#[test]
fn loss_undoes_sent() {
    let mut core = fast();
    core.on_sent(5000);
    assert!(core.loss_fits(5000));
    core.on_loss_bytes(5000);
    assert_eq!(core.bytes_in_flight, 0);
    assert_eq!(core.lost_packets_in_batch, 5);
    core.on_loss_bytes(0);
    assert_eq!(core.lost_packets_in_batch, 5);
}

#[test]
fn bytes_in_flight_saturate() {
    let mut core = fast();
    core.on_sent(u64::MAX - 1);
    core.on_sent(10);
    assert_eq!(core.bytes_in_flight, u64::MAX);
    core.bytes_in_flight = 3;
    core.on_ack_bytes(10, Span::from_millis(1));
    assert_eq!(core.bytes_in_flight, 0);
    core.on_loss_bytes(10);
    assert_eq!(core.bytes_in_flight, 0);
}

#[test]
fn counting_leaves_the_window() {
    let mut core = fast();
    core.on_sent(5000);
    core.on_loss_bytes(1000);
    core.on_ack_bytes(1000, Span::from_millis(1));
    assert_eq!(core.window_cached(), 1_562_500);
}

#[test]
fn full_counts_do_not_fit() {
    let mut core = fast();
    core.acked_packets_in_batch = u64::MAX - 1;
    assert!(core.ack_fits(1200));
    assert!(!core.ack_fits(1201));
    core.lost_packets_in_batch = u64::MAX;
    assert!(core.loss_fits(0));
    assert!(!core.loss_fits(1));
    core.lost_packets_in_batch = 1;
    assert!(core.batch_fits(at(11, 0)));
    core.lost_packets_in_batch = 2;
    assert!(!core.batch_fits(at(11, 0)));
}

#[test]
fn closing_a_batch_restarts_the_counts() {
    let mut core = fast();
    core.on_sent(9_000);
    close(&mut core, at(11, 0), 90, 10);
    assert_eq!(core.acked_packets_in_batch, 0);
    assert_eq!(core.lost_packets_in_batch, 0);
    assert_eq!(core.bytes_in_flight, 9_000);
    assert_eq!(share(&core), 0.9);
    assert_eq!(core.window_cached(), 1_562_500);
}

#[test]
fn few_samples_count_as_acked() {
    let mut core = fast();
    close(&mut core, at(11, 0), 39, 10);
    assert_eq!(share(&core), 1.0);
    close(&mut core, at(11, 0), 1, 0);
    assert_eq!(share(&core), 0.8);
}

#[test]
fn sample_is_withheld_where_too_small() {
    let mut core = fast();
    core.acked_packets_in_batch = 49;
    assert!(core.sample_batch(at(11, 0)).is_none());
    core.acked_packets_in_batch = 0;
    core.lost_packets_in_batch = 1;
    assert_eq!(core.sample_batch(at(11, 0)), Some((49, 50)));
    assert_eq!(core.lost_packets_in_batch, 1);
}

#[test]
fn share_is_set_without_touching_the_counts() {
    let mut core = fast();
    core.acked_packets_in_batch = 60;
    core.lost_packets_in_batch = 20;
    core.update_ack_rate(at(11, 0), &ratio);
    assert_eq!(share(&core), 0.75);
    assert_eq!(core.acked_packets_in_batch, 60);
    assert_eq!(core.lost_packets_in_batch, 20);
}

#[test]
fn losses_are_ignored_without_compensation() {
    let mut core = fast();
    close(&mut core, at(11, 0), 10, 90);
    assert_eq!(share(&core), 0.1);
    assert_eq!(f64::from_bits(core.effective_ack_rate().bits), 1.0);
    assert_eq!(core.window_cached(), 1_562_500);
}

#[test]
fn losses_are_made_up_for_with_compensation() {
    let mut core = fast();
    core.config.enable_ack_rate_compensation = true;
    close(&mut core, at(11, 0), 90, 10);
    assert_eq!(f64::from_bits(core.effective_ack_rate().bits), 0.9);
    assert_eq!(core.window_cached(), 1_736_111);
}

#[test]
fn compensation_has_a_floor() {
    let mut core = fast();
    core.config.enable_ack_rate_compensation = true;
    close(&mut core, at(11, 0), 10, 90);
    assert_eq!(f64::from_bits(core.effective_ack_rate().bits), 0.8);
    assert_eq!(core.window_cached(), 1_953_125);
}

#[test]
fn undefined_share_gives_way_to_the_floor() {
    let mut core = fast();
    core.config.enable_ack_rate_compensation = true;
    core.config.min_sample_count = 0;
    close(&mut core, at(11, 0), 0, 0);
    assert!(share(&core).is_nan());
    assert_eq!(f64::from_bits(core.effective_ack_rate().bits), 0.8);
}

#[test]
fn share_is_of_the_last_seconds() {
    let mut core = fast();
    close(&mut core, at(10, 600), 0, 1000);
    assert_eq!(share(&core), 0.0);
    close(&mut core, at(11, 600), 100, 0);
    close(&mut core, at(14, 600), 100, 0);
    assert_eq!(share(&core), 200.0 / 1200.0);
    // Five seconds after the first batch its slot is taken over.
    close(&mut core, at(15, 600), 100, 0);
    assert_eq!(share(&core), 1.0);
    close(&mut core, at(16, 600), 0, 100);
    assert_eq!(share(&core), 200.0 / 300.0);
}

#[test]
fn old_slots_no_longer_count() {
    let mut core = fast();
    close(&mut core, at(11, 600), 0, 100);
    close(&mut core, at(16, 600), 60, 0);
    assert_eq!(share(&core), 1.0);
    close(&mut core, at(30, 600), 10, 0);
    assert_eq!(share(&core), 1.0);
    close(&mut core, at(30, 700), 20, 30);
    assert_eq!(share(&core), 0.5);
}

#[test]
fn slots_agree_with_a_plain_list_of_batches() {
    let mut ring = SlotRing::new();
    let mut history: Vec<(u64, u64, u64)> = Vec::new();
    let mut ts = 0u64;
    for step in 0..400u64 {
        ts += [0, 0, 1, 0, 2, 1, 0, 7][(step % 8) as usize];
        let batch = (ts, step % 13, step % 5);
        assert!(ring.fits(batch.0, batch.1, batch.2));
        ring.record(batch.0, batch.1, batch.2);
        history.push(batch);
        let recent: Vec<&(u64, u64, u64)> = history.iter().filter(|b| b.0 + 5 > ts).collect();
        let want = (recent.iter().map(|b| b.1).sum(), recent.iter().map(|b| b.2).sum());
        assert_eq!(ring.fresh_counts(ts), want);
    }
}

#[test]
fn record_touches_one_slot() {
    let mut ring = SlotRing::new();
    ring.record(3, 10, 1);
    ring.record(4, 20, 2);
    assert_eq!(ring.fresh_counts(4), (30, 3));
    ring.record(9, 5, 5);
    assert_eq!(ring.fresh_counts(9), (5, 5));
    assert_eq!(ring.fresh_counts(8), (15, 6));
}

#[test]
fn full_slots_do_not_fit() {
    let mut ring = SlotRing::new();
    assert!(ring.fits(2, u64::MAX, 0));
    assert!(!ring.fits(2, u64::MAX, 1));
    ring.record(2, u64::MAX, 0);
    assert!(!ring.fits(2, 1, 0));
    assert!(!ring.fits(3, 0, 1));
    assert!(!ring.fits(6, 1, 0));
    assert!(ring.fits(7, 0, u64::MAX));
    assert!(ring.fits(8, u64::MAX, 0));
}

#[test]
fn time_may_run_backwards() {
    let mut core = fast();
    close(&mut core, at(30, 600), 60, 0);
    close(&mut core, at(12, 600), 0, 60);
    assert_eq!(share(&core), 0.5);
}

#[test]
fn packet_size_moves_the_floor() {
    let mut core = BrutalCore::new(BrutalConfigCore::new(1), at(0, 0), 1200, &product);
    assert_eq!(core.window_cached(), 16_384);
    core.on_mtu_update(u16::MAX, &product);
    assert_eq!(core.mtu, 65_535);
    assert_eq!(core.window_cached(), 65_535);
}

#[test]
fn copies_go_their_own_ways() {
    let mut core = fast();
    close(&mut core, at(11, 0), 30, 0);
    let mut copy = core.clone();
    close(&mut copy, at(11, 0), 0, 30);
    assert_eq!(share(&copy), 0.5);
    assert_eq!(share(&core), 1.0);
    assert_eq!(core.window_cached(), copy.window_cached());
}

#[test]
fn closing_again_changes_nothing() {
    for (acked, lost) in vec![(90, 10), (10, 90), (3, 4), (0, 0)] {
        let mut core = fast();
        core.config.enable_ack_rate_compensation = true;
        close(&mut core, at(11, 0), acked, lost);
        let once = core.clone();
        close(&mut core, at(11, 0), 0, 0);
        assert_eq!(core.ack_rate.bits, once.ack_rate.bits);
        assert_eq!(core.cwnd, once.cwnd);
        assert_eq!(core.bytes_in_flight, once.bytes_in_flight);
        assert_eq!(core.slots.fresh_counts(0), once.slots.fresh_counts(0));
        assert_eq!(core.slots.fresh_counts(0), (acked, lost));
    }
}

#[test]
fn closing_a_batch_sets_share_then_window() {
    let mut core = fast();
    core.config.enable_ack_rate_compensation = true;
    core.acked_packets_in_batch = 90;
    core.lost_packets_in_batch = 10;
    let mut alone = core.clone();
    alone.update_ack_rate(at(11, 0), &ratio);
    core.on_end_acks(at(11, 0), &ratio, &product);
    assert_eq!(core.ack_rate.bits, alone.ack_rate.bits);
    assert_eq!(core.cwnd, alone.compute_cwnd(&product));
    assert_eq!(core.cwnd, core.compute_cwnd(&product));
    assert_eq!(core.cwnd, 1_736_111);
}

#[test]
fn recording_alone_extends_the_history() {
    let mut core = fast();
    core.acked_packets_in_batch = 40;
    core.update_ack_rate(at(11, 0), &ratio);
    core.update_ack_rate(at(12, 0), &ratio);
    assert_eq!(core.slots.fresh_counts(core.now_sec(at(12, 0))), (80, 0));
}

#[test]
fn share_stays_a_share() {
    let mut core = fast();
    core.config.min_sample_count = 1;
    let moments = [11, 12, 12, 30, 3, 31, 14, 40];
    for (i, secs) in moments.iter().enumerate() {
        close(&mut core, at(*secs, 0), (i as u64 * 7) % 5, (i as u64 * 3) % 4);
        assert!(share(&core) >= 0.0 && share(&core) <= 1.0);
    }
}

#[test]
fn window_grows_with_rate_and_round_trip() {
    let mut last = 0;
    for (bps, millis) in vec![(1, 1), (100_000_000, 1), (100_000_000, 33), (300_000_001, 33)] {
        let mut core = fast();
        core.bandwidth_hint_bps = Some(bps);
        core.update_smoothed_rtt(Span::from_millis(millis));
        let window = core.compute_cwnd(&product);
        assert!(window >= last);
        last = window;
    }
    assert_eq!(last, 1_546_875);
}

#[test]
fn compensation_only_widens_the_window() {
    for (acks, total) in vec![(1, 100), (79, 100), (80, 100), (95, 100), (100, 100)] {
        let mut core = fast();
        core.ack_rate = ratio(acks, total);
        let off = core.compute_cwnd(&product);
        core.config.enable_ack_rate_compensation = true;
        let on = core.compute_cwnd(&product);
        assert_eq!(off, 1_562_500);
        assert!(on >= off);
        assert_eq!(on == off, acks == total);
    }
}

#[test]
fn equal_settings_give_equal_windows_without_compensation() {
    let mut a = fast();
    let mut b = fast();
    b.base_time = at(3, 0);
    b.on_sent(12_345);
    close(&mut a, at(11, 0), 100, 0);
    close(&mut b, at(40, 0), 1, 999);
    assert_ne!(a.ack_rate.bits, b.ack_rate.bits);
    assert_eq!(a.cwnd, b.cwnd);
}

#[test]
fn first_window_ignores_compensation() {
    for floor in vec![-1.0, 0.0, 0.5, 1.0, f64::NAN] {
        for gain in vec![-2.0, 0.0, 1.25, f64::INFINITY] {
            let mut config = BrutalConfigCore::new(100_000_000);
            config.min_ack_rate = Double { bits: floor.to_bits() };
            config.cwnd_gain = Double { bits: gain.to_bits() };
            let off = BrutalCore::new(config.clone(), at(0, 0), 1200, &product);
            config.enable_ack_rate_compensation = true;
            let on = BrutalCore::new(config, at(0, 0), 1200, &product);
            assert_eq!(on.cwnd, off.cwnd);
        }
    }
}

#[test]
fn dropping_the_hint_restores_the_window() {
    let mut core = fast();
    for bps in vec![1, 900_000_000, 42] {
        core.set_peer_bandwidth_hint(Some(bps), &product);
    }
    assert_eq!(core.cwnd, 16_384);
    core.set_peer_bandwidth_hint(None, &product);
    assert_eq!(core.cwnd, 1_562_500);
    assert_eq!(core.target_bps(), 100_000_000);
}

#[test]
fn kept_window_is_current_while_bytes_are_sent_and_lost() {
    let mut core = fast();
    close(&mut core, at(11, 0), 90, 10);
    for bytes in vec![1, 5_000, 0, 77] {
        core.on_sent(bytes);
        core.on_loss_bytes(bytes / 2);
        assert_eq!(core.window_cached(), core.window_recomputed(&product));
        assert_eq!(core.window_cached(), core.initial_window(&product));
    }
}
