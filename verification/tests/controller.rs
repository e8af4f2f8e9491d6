use std::time::Duration;

use brutal::{
    brutal_set_parameter_by_remote, Brutal, BrutalConfig, BrutalControl, ConfigError,
    CongestionParameter, Double, Moment, Registry, RemoteAddr, Span, WindowInputs,
};

const PEER: RemoteAddr = RemoteAddr::V4 { ip: 0xc000_0201, port: 443 };
const OTHER: RemoteAddr = RemoteAddr::V6 { ip6: 1, port: 443, flowinfo: 0, scope_id: 0 };

fn double(v: f64) -> Double {
    Double { bits: v.to_bits() }
}

fn ratio(acks: u64, total: u64) -> Double {
    double(acks as f64 / total as f64)
}

fn product(inputs: WindowInputs) -> u64 {
    let rtt = Duration::new(inputs.rtt.as_secs(), inputs.rtt.subsec_nanos()).as_secs_f64();
    let gain = f64::from_bits(inputs.cwnd_gain.bits);
    let ack_rate = f64::from_bits(inputs.ack_rate.bits);
    (inputs.bps as f64 * rtt * gain / ack_rate / 8.0) as u64
}

fn start() -> Moment {
    Moment { since_origin: Span::new(0, 0) }
}

fn build(registry: &mut Registry, remote: RemoteAddr) -> Brutal {
    BrutalConfig::new(100_000_000, double(1.25), false)
        .build(start(), 1200, remote, registry, &product)
}

fn hint(bps: u64) -> CongestionParameter {
    CongestionParameter::PeerBandwidthHint(bps)
}

#[test]
fn config_takes_gain_and_switch() {
    let mut config = BrutalConfig::new(5, double(2.5), true);
    assert_eq!(config.inner().default_bandwidth_bps, 5);
    assert_eq!(f64::from_bits(config.inner().cwnd_gain.bits), 2.5);
    assert!(config.inner().enable_ack_rate_compensation);
    assert_eq!(config.inner().min_window, 16_384);
    assert_eq!(config.inner().min_sample_count, 50);
    assert_eq!(f64::from_bits(config.inner().min_ack_rate.bits), 0.8);
    config.inner_mut().min_window = 99;
    assert_eq!(config.0.min_window, 99);
    assert_eq!(config.clone().0.min_window, 99);
    assert_eq!(BrutalConfig::default().0.default_bandwidth_bps, 1_000_000);
}

#[test]
fn new_controller_shows_its_initial_window() {
    let mut registry = Registry::new();
    let brutal = build(&mut registry, PEER);
    assert_eq!(brutal.initial_window(&product), 1_562_500);
    assert_eq!(brutal.window(), 1_562_500);
    assert_eq!(brutal.inner().mtu, 1200);
    assert!(brutal.is_listening(&registry));
}

#[test]
fn hint_set_is_aimed_at_from_the_next_event() {
    let mut registry = Registry::new();
    let mut brutal = build(&mut registry, PEER);
    assert_eq!(brutal_set_parameter_by_remote(&mut registry, PEER, hint(200_000_000)), Ok(()));
    assert_eq!(brutal.window(), 1_562_500);
    brutal.on_sent(1200, &mut registry, &product);
    assert_eq!(brutal.window(), 3_125_000);
}

#[test]
fn every_event_takes_over_parameters() {
    let mut registry = Registry::new();
    let mut brutal = build(&mut registry, PEER);
    let _ = brutal_set_parameter_by_remote(&mut registry, PEER, hint(200_000_000));
    brutal.on_ack(1200, Span::from_millis(100), &mut registry, &product);
    assert_eq!(brutal.window(), 3_125_000);
    let _ = brutal_set_parameter_by_remote(&mut registry, PEER, hint(100_000_000));
    brutal.on_congestion_event(1200, &mut registry, &product);
    assert_eq!(brutal.window(), 1_562_500);
    let _ = brutal_set_parameter_by_remote(&mut registry, PEER, hint(200_000_000));
    brutal.on_end_acks(start(), &mut registry, &ratio, &product);
    assert_eq!(brutal.window(), 3_125_000);
    let _ = brutal_set_parameter_by_remote(&mut registry, PEER, hint(0));
    brutal.on_mtu_update(60_000, &mut registry, &product);
    assert_eq!(brutal.window(), 60_000);
}

#[test]
fn last_parameter_of_a_kind_counts() {
    let mut registry = Registry::new();
    let mut brutal = build(&mut registry, PEER);
    let _ = brutal_set_parameter_by_remote(&mut registry, PEER, hint(1));
    let _ = brutal_set_parameter_by_remote(&mut registry, PEER, hint(200_000_000));
    brutal.on_sent(0, &mut registry, &product);
    assert_eq!(brutal.window(), 3_125_000);
}

#[test]
fn kinds_wait_side_by_side() {
    let mut control = BrutalControl::new();
    control.store_parameter(hint(7));
    control.store_parameter(CongestionParameter::AckCompensation(true));
    control.store_parameter(CongestionParameter::CwndGain(double(3.0)));
    control.store_parameter(hint(8));
    assert_eq!(control.take_peer_bandwidth_hint(), Some(8));
    assert_eq!(control.take_peer_bandwidth_hint(), None);
    assert_eq!(control.take_cwnd_gain().map(|g| f64::from_bits(g.bits)), Some(3.0));
    assert!(control.take_cwnd_gain().is_none());
    assert_eq!(control.take_ack_compensation(), Some(true));
    assert_eq!(control.take_ack_compensation(), None);
}

#[test]
fn gain_and_switch_are_taken_over_together() {
    let mut registry = Registry::new();
    let mut brutal = build(&mut registry, PEER);
    for _ in 0..90 {
        brutal.on_ack(1200, Span::from_millis(100), &mut registry, &product);
    }
    for _ in 0..10 {
        brutal.on_congestion_event(1200, &mut registry, &product);
    }
    assert!(brutal.batch_fits(start()));
    brutal.on_end_acks(start(), &mut registry, &ratio, &product);
    assert_eq!(brutal.window(), 1_562_500);
    let on = CongestionParameter::AckCompensation(true);
    assert_eq!(brutal_set_parameter_by_remote(&mut registry, PEER, on), Ok(()));
    brutal.on_sent(0, &mut registry, &product);
    assert_eq!(brutal.window(), 1_736_111);
    let gain = CongestionParameter::CwndGain(double(2.0));
    let off = CongestionParameter::AckCompensation(false);
    assert_eq!(brutal_set_parameter_by_remote(&mut registry, PEER, gain), Ok(()));
    assert_eq!(brutal_set_parameter_by_remote(&mut registry, PEER, off), Ok(()));
    brutal.on_sent(0, &mut registry, &product);
    assert_eq!(brutal.window(), 2_500_000);
}

#[test]
fn parameter_is_taken_once() {
    let mut registry = Registry::new();
    let mut first = build(&mut registry, PEER);
    assert!(first.can_clone(&registry));
    let mut second = first.clone_box(&mut registry);
    let _ = brutal_set_parameter_by_remote(&mut registry, PEER, hint(200_000_000));
    second.on_sent(0, &mut registry, &product);
    first.on_sent(0, &mut registry, &product);
    assert_eq!(second.window(), 3_125_000);
    assert_eq!(first.window(), 1_562_500);
}

#[test]
fn gain_must_be_positive() {
    let mut registry = Registry::new();
    let mut brutal = build(&mut registry, PEER);
    for bad in vec![0.0, -0.0, -1.0, f64::NEG_INFINITY] {
        let r = brutal.apply_parameter(CongestionParameter::CwndGain(double(bad)), &product);
        assert_eq!(r, Err(ConfigError::OutOfBounds));
        assert_eq!(brutal.window(), 1_562_500);
    }
    let r = brutal.apply_parameter(CongestionParameter::CwndGain(double(2.0)), &product);
    assert_eq!(r, Ok(()));
    assert_eq!(brutal.window(), 2_500_000);
    // A gain that is not a number passes the check and leaves the floor.
    let r = brutal.apply_parameter(CongestionParameter::CwndGain(double(f64::NAN)), &product);
    assert_eq!(r, Ok(()));
    assert_eq!(brutal.window(), 16_384);
}

#[test]
fn refused_gain_holds_back_the_switch() {
    let mut registry = Registry::new();
    let mut brutal = build(&mut registry, PEER);
    brutal.on_ack(1200 * 10, Span::from_millis(100), &mut registry, &product);
    brutal.on_congestion_event(1200 * 90, &mut registry, &product);
    brutal.on_end_acks(start(), &mut registry, &ratio, &product);
    let gain = CongestionParameter::CwndGain(double(-1.0));
    let on = CongestionParameter::AckCompensation(true);
    let _ = brutal_set_parameter_by_remote(&mut registry, PEER, gain);
    let _ = brutal_set_parameter_by_remote(&mut registry, PEER, on);
    let _ = brutal_set_parameter_by_remote(&mut registry, PEER, hint(200_000_000));
    let r = brutal.apply_pending_parameters(&mut registry, &product);
    assert_eq!(r, Err(ConfigError::OutOfBounds));
    assert_eq!(brutal.window(), 3_125_000);
    let r = brutal.apply_pending_parameters(&mut registry, &product);
    assert_eq!(r, Ok(()));
    assert_eq!(brutal.window(), 3_906_250);
    let r = brutal.apply_pending_parameters(&mut registry, &product);
    assert_eq!(r, Ok(()));
    assert_eq!(brutal.window(), 3_906_250);
}

#[test]
fn set_is_refused_where_nobody_listens() {
    let mut registry = Registry::new();
    let refused = Err(ConfigError::OutOfBounds);
    assert_eq!(brutal_set_parameter_by_remote(&mut registry, PEER, hint(1)), refused);
    let brutal = build(&mut registry, PEER);
    assert_eq!(brutal_set_parameter_by_remote(&mut registry, OTHER, hint(1)), refused);
    assert_eq!(brutal_set_parameter_by_remote(&mut registry, PEER, hint(1)), Ok(()));
    brutal.drop(&mut registry);
    assert_eq!(brutal_set_parameter_by_remote(&mut registry, PEER, hint(1)), refused);
}

#[test]
fn set_spares_other_addresses() {
    let mut registry = Registry::new();
    let mut peer = build(&mut registry, PEER);
    let mut other = build(&mut registry, OTHER);
    let _ = brutal_set_parameter_by_remote(&mut registry, PEER, hint(200_000_000));
    other.on_sent(0, &mut registry, &product);
    peer.on_sent(0, &mut registry, &product);
    assert_eq!(other.window(), 1_562_500);
    assert_eq!(peer.window(), 3_125_000);
}

#[test]
fn later_controller_takes_over_the_address() {
    let mut registry = Registry::new();
    let mut older = build(&mut registry, PEER);
    let mut newer = build(&mut registry, PEER);
    let _ = brutal_set_parameter_by_remote(&mut registry, PEER, hint(200_000_000));
    older.on_sent(0, &mut registry, &product);
    newer.on_sent(0, &mut registry, &product);
    assert_eq!(older.window(), 1_562_500);
    assert_eq!(newer.window(), 3_125_000);
    // The older one strikes out the address on leaving, whoever holds it now.
    older.drop(&mut registry);
    assert_eq!(
        brutal_set_parameter_by_remote(&mut registry, PEER, hint(1)),
        Err(ConfigError::OutOfBounds)
    );
    assert!(newer.is_listening(&registry));
    newer.on_sent(0, &mut registry, &product);
    assert_eq!(newer.window(), 3_125_000);
}

#[test]
fn clone_outlives_the_original() {
    let mut registry = Registry::new();
    let first = build(&mut registry, PEER);
    let mut second = first.clone_box(&mut registry);
    let _ = brutal_set_parameter_by_remote(&mut registry, PEER, hint(200_000_000));
    first.drop(&mut registry);
    assert!(second.is_listening(&registry));
    second.on_sent(0, &mut registry, &product);
    assert_eq!(second.window(), 3_125_000);
    second.drop(&mut registry);
}

#[test]
fn listeners_stay_while_others_come_and_go() {
    let mut registry = Registry::new();
    let mut peer = build(&mut registry, PEER);
    let other = build(&mut registry, OTHER);
    other.drop(&mut registry);
    let third = build(&mut registry, RemoteAddr::V4 { ip: 9, port: 9 });
    assert!(peer.is_listening(&registry));
    assert!(third.is_listening(&registry));
    let _ = brutal_set_parameter_by_remote(&mut registry, PEER, hint(200_000_000));
    peer.on_sent(0, &mut registry, &product);
    assert_eq!(peer.window(), 3_125_000);
    assert_eq!(third.window(), 1_562_500);
}

#[test]
fn freed_block_is_clean_when_used_again() {
    let mut registry = Registry::new();
    let peer = build(&mut registry, PEER);
    let _ = brutal_set_parameter_by_remote(&mut registry, PEER, hint(200_000_000));
    peer.drop(&mut registry);
    let mut other = build(&mut registry, OTHER);
    other.on_sent(0, &mut registry, &product);
    assert_eq!(other.window(), 1_562_500);
}

#[test]
fn registry_frees_a_block_with_its_last_holder() {
    let mut registry = Registry::new();
    let id = registry.register_controller(PEER);
    assert!(registry.is_held(id, PEER));
    assert!(!registry.is_held(id, OTHER));
    assert!(registry.can_share(id));
    registry.share(id);
    registry.release(id, PEER);
    assert!(registry.is_held(id, PEER));
    registry.release(id, PEER);
    assert!(!registry.is_held(id, PEER));
    assert!(!registry.can_share(id));
    assert_eq!(registry.register_controller(OTHER), id);
}

#[test]
fn parameters_wait_in_the_block_of_the_address() {
    let mut registry = Registry::new();
    let peer = registry.register_controller(PEER);
    let other = registry.register_controller(OTHER);
    assert_ne!(peer, other);
    assert_eq!(registry.set_parameter(OTHER, hint(5)), Ok(()));
    assert_eq!(registry.control_mut(peer).take_peer_bandwidth_hint(), None);
    assert_eq!(registry.control_mut(other).take_peer_bandwidth_hint(), Some(5));
    assert_eq!(registry.control_mut(other).take_peer_bandwidth_hint(), None);
}

#[test]
fn counts_are_guarded_on_the_controller() {
    let mut registry = Registry::new();
    let mut brutal = build(&mut registry, PEER);
    brutal.on_mtu_update(1, &mut registry, &product);
    assert!(brutal.ack_fits(u64::MAX));
    brutal.on_ack(u64::MAX, Span::from_millis(1), &mut registry, &product);
    assert!(!brutal.ack_fits(1));
    assert!(brutal.batch_fits(start()));
    assert!(brutal.loss_fits(1));
    brutal.on_congestion_event(1, &mut registry, &product);
    assert!(!brutal.batch_fits(start()));
}

#[test]
fn parameters_leave_the_counts_alone() {
    let mut registry = Registry::new();
    let mut brutal = build(&mut registry, PEER);
    brutal.on_ack(1200 * 90, Span::from_millis(100), &mut registry, &product);
    let gain = CongestionParameter::CwndGain(double(2.0));
    let on = CongestionParameter::AckCompensation(true);
    let _ = brutal_set_parameter_by_remote(&mut registry, PEER, hint(200_000_000));
    let _ = brutal_set_parameter_by_remote(&mut registry, PEER, gain);
    let _ = brutal_set_parameter_by_remote(&mut registry, PEER, on);
    brutal.on_congestion_event(1200 * 10, &mut registry, &product);
    assert_eq!(brutal.window(), 5_000_000);
    brutal.on_end_acks(start(), &mut registry, &ratio, &product);
    assert_eq!(brutal.window(), 5_555_555);
}

#[test]
fn a_stale_window_is_renewed_with_any_parameter() {
    let mut registry = Registry::new();
    let mut brutal = build(&mut registry, PEER);
    brutal.on_ack(1200, Span::from_millis(50), &mut registry, &product);
    assert_eq!(brutal.window(), 1_562_500);
    let off = CongestionParameter::AckCompensation(false);
    let _ = brutal_set_parameter_by_remote(&mut registry, PEER, off);
    brutal.on_sent(0, &mut registry, &product);
    assert_eq!(brutal.window(), 781_250);
}

#[test]
fn parameters_can_be_looked_at_while_they_wait() {
    let mut registry = Registry::new();
    let mut brutal = build(&mut registry, PEER);
    assert_eq!(brutal.pending(&registry).peer_bandwidth_hint, None);
    let _ = brutal_set_parameter_by_remote(&mut registry, PEER, hint(5));
    assert_eq!(brutal.pending(&registry).peer_bandwidth_hint, Some(5));
    brutal.on_sent(0, &mut registry, &product);
    assert_eq!(brutal.pending(&registry).peer_bandwidth_hint, None);
}

#[test]
fn controller_of_another_registry_only_strikes_out() {
    let mut home = Registry::new();
    let mut away = Registry::new();
    let stray = build(&mut home, PEER);
    let _ = away.register_controller(OTHER);
    let id = away.register_controller(PEER);
    stray.drop(&mut away);
    assert!(away.is_held(id, PEER));
    assert_eq!(away.set_parameter(PEER, hint(1)), Err(ConfigError::OutOfBounds));
    assert_eq!(away.set_parameter(OTHER, hint(1)), Ok(()));
}

#[test]
fn struck_out_address_is_refused() {
    let mut registry = Registry::new();
    let id = registry.register_controller(PEER);
    registry.strike_out(PEER);
    assert!(registry.is_held(id, PEER));
    assert!(registry.control(id).cwnd_gain.is_none());
    assert_eq!(registry.set_parameter(PEER, hint(1)), Err(ConfigError::OutOfBounds));
}

#[test]
fn every_controller_in_use_listens() {
    let mut registry = Registry::new();
    let mut in_use: Vec<Brutal> = Vec::new();
    for step in 0..60usize {
        match step % 6 {
            0 | 3 => in_use.push(build(&mut registry, PEER)),
            1 => in_use.push(build(&mut registry, OTHER)),
            2 => {
                let clone = in_use[step % in_use.len()].clone_box(&mut registry);
                in_use.push(clone);
            }
            4 => {
                let _ = brutal_set_parameter_by_remote(&mut registry, PEER, hint(9));
                let at = step % in_use.len();
                in_use[at].on_sent(1, &mut registry, &product);
            }
            _ => {
                let gone = in_use.remove(step % in_use.len());
                gone.drop(&mut registry);
            }
        }
        assert!(in_use.iter().all(|brutal| brutal.is_listening(&registry)));
    }
}

#[test]
fn controllers_of_one_configuration_start_alike() {
    let mut registry = Registry::new();
    let config = BrutalConfig::new(100_000_000, double(1.25), false);
    let mut first = config.build(start(), 1200, PEER, &mut registry, &product);
    let gain = CongestionParameter::CwndGain(double(9.0));
    let _ = brutal_set_parameter_by_remote(&mut registry, PEER, gain);
    let _ = brutal_set_parameter_by_remote(&mut registry, PEER, hint(7_000_000_000));
    first.on_sent(1, &mut registry, &product);
    assert_ne!(first.window(), 1_562_500);
    let second = config.build(start(), 1200, OTHER, &mut registry, &product);
    assert_eq!(second.window(), 1_562_500);
    assert_eq!(f64::from_bits(config.inner().cwnd_gain.bits), 1.25);
}

#[test]
fn events_keep_the_window_above_its_floor() {
    let mut registry = Registry::new();
    let mut brutal = build(&mut registry, PEER);
    let _ = brutal_set_parameter_by_remote(&mut registry, PEER, hint(1));
    brutal.on_sent(5, &mut registry, &product);
    assert_eq!(brutal.window(), 16_384);
    brutal.on_mtu_update(20_000, &mut registry, &product);
    brutal.on_ack(5, Span::from_millis(1), &mut registry, &product);
    brutal.on_congestion_event(5, &mut registry, &product);
    brutal.on_end_acks(start(), &mut registry, &ratio, &product);
    assert_eq!(brutal.window(), 20_000);
}
