//! What each step of a controller does, told by what goes into it and what comes out.
use vstd::arithmetic::power2::{lemma_pow2_pos, lemma_pow2_unfold, pow2};
use vstd::prelude::*;

use crate::brutal_core::{
    acked, batch_closed, called_for, lost, packets, rated, refreshed, sent, started,
    BrutalConfigCore, BrutalCore, WindowInputs,
};
use crate::control::{BrutalControl, ConfigError, CongestionParameter};
use crate::controller::{
    applied, caught_up, drained, gain_refused, law_parameters_touch_nothing_else,
};
use crate::double::{law_nan_by_bits, law_order_by_bits, units_of, Double};
use crate::laws::{
    law_batch_closed, law_caught_up_parameters_hold, law_caught_up_window_is_current,
    law_packets_are_just_enough, takes_any,
};
use crate::slots::{fresh_count, recorded, Counts, Fate};
use crate::time::{Moment, Span};

verus! {

/// The window for a computed width is that width, but for the two floors: it is one of width,
/// minimum and packet size, and none of these is above it.
pub proof fn law_floor_only_raises(core: BrutalCore, raw: u64)
    ensures
        core.floored(raw) >= raw,
        core.floored(raw) >= core.config.min_window,
        core.floored(raw) >= core.mtu,
        core.floored(raw) == raw || core.floored(raw) == core.config.min_window
            || core.floored(raw) == core.mtu,
{
}

/// A window is called for exactly where the formula gave a width for the present inputs that
/// it equals, or that a floor it equals lies above.
pub proof fn law_window_is_the_computed_width<P: Fn(WindowInputs) -> u64>(
    product: P,
    core: BrutalCore,
    window: u64,
) -> (raw: u64)
    requires
        called_for(product, core, window),
    ensures
        call_ensures(product, (core.inputs(),), raw),
        window >= raw,
        window >= core.config.min_window,
        window >= core.mtu,
        window == raw || window == core.config.min_window || window == core.mtu,
{
    choose|raw: u64|
        #![trigger call_ensures(product, (core.inputs(),), raw)]
        call_ensures(product, (core.inputs(),), raw) && window == core.floored(raw)
}

/// The formula is given the bandwidth of the hint, the round trip last reported and the
/// window gain as they are, and the configured ones where there is no hint or report.
pub proof fn law_formula_is_given_the_settings(core: BrutalCore, bps: u64, rtt: Span)
    ensures
        core.bandwidth_hint_bps == Some(bps) ==> core.inputs().bps == bps,
        core.bandwidth_hint_bps is None ==> core.inputs().bps
            == core.config.default_bandwidth_bps,
        core.smoothed_rtt == Some(rtt) ==> core.inputs().rtt == rtt,
        core.smoothed_rtt is None ==> core.inputs().rtt == core.config.initial_rtt,
        core.inputs().cwnd_gain == core.config.cwnd_gain,
        core.target() == core.inputs().bps,
        core.rtt() == core.inputs().rtt,
        core.compensated_rate() == core.inputs().ack_rate,
{
}

/// With compensation, the share made up for is the measured one while that is not below the
/// floor, and the floor itself once it is. What is not a number gives way to the other.
pub proof fn law_share_made_up_for(core: BrutalCore)
    requires
        core.config.enable_ack_rate_compensation,
    ensures
        core.ack_rate.at_most(core.config.min_ack_rate) && !core.config.min_ack_rate.at_most(
            core.ack_rate,
        ) ==> core.inputs().ack_rate == core.config.min_ack_rate,
        core.config.min_ack_rate.at_most(core.ack_rate) ==> core.inputs().ack_rate
            == core.ack_rate,
        core.ack_rate.is_nan() ==> core.inputs().ack_rate == core.config.min_ack_rate,
        core.config.min_ack_rate.is_nan() && !core.ack_rate.is_nan() ==> core.inputs().ack_rate
            == core.ack_rate,
{
}

/// With compensation and two shares without a sign, the share made up for is the one with
/// the larger bits.
pub proof fn law_share_made_up_for_by_bits(core: BrutalCore)
    requires
        core.config.enable_ack_rate_compensation,
        core.ack_rate.bits <= 0x7ff0_0000_0000_0000,
        core.config.min_ack_rate.bits <= 0x7ff0_0000_0000_0000,
    ensures
        core.inputs().ack_rate.bits >= core.ack_rate.bits,
        core.inputs().ack_rate.bits >= core.config.min_ack_rate.bits,
        core.inputs().ack_rate.bits == core.ack_rate.bits || core.inputs().ack_rate.bits
            == core.config.min_ack_rate.bits,
{
    law_nan_by_bits(core.ack_rate);
    law_nan_by_bits(core.config.min_ack_rate);
    law_order_by_bits(core.ack_rate, core.config.min_ack_rate);
    law_order_by_bits(core.config.min_ack_rate, core.ack_rate);
}

/// Without compensation, the share made up for is `1.0`.
pub proof fn law_nothing_made_up_for(core: BrutalCore)
    requires
        !core.config.enable_ack_rate_compensation,
    ensures
        core.inputs().ack_rate.bits == 0x3ff0_0000_0000_0000,
{
}

/// The second of a moment is the number of whole seconds since the controller started, for
/// as long as it runs.
pub proof fn law_seconds_are_whole_seconds(core: BrutalCore, now: Moment)
    ensures
        now.since_origin@ >= core.base_time.since_origin@ ==> {
            &&& core.second(now) * 1_000_000_000 <= now.since_origin@
                - core.base_time.since_origin@
            &&& now.since_origin@ - core.base_time.since_origin@ < (core.second(now) + 1)
                * 1_000_000_000
        },
        now.since_origin@ < core.base_time.since_origin@ ==> core.second(now) == 0,
{
}

/// A moment that lies whole seconds later falls in a second that is later by as many.
pub proof fn law_seconds_advance_with_time(
    core: BrutalCore,
    earlier: Moment,
    later: Moment,
    secs: nat,
)
    requires
        earlier.since_origin@ >= core.base_time.since_origin@,
        later.since_origin@ == earlier.since_origin@ + secs * 1_000_000_000,
    ensures
        core.second(later) == core.second(earlier) + secs,
{
    law_seconds_are_whole_seconds(core, earlier);
    law_seconds_are_whole_seconds(core, later);
}

/// The packets of some bytes carry them with no packet to spare, and a packet without a size
/// carries one byte.
pub proof fn law_packets_carry_the_bytes(core: BrutalCore, bytes: u64)
    ensures
        core.mtu > 0 ==> core.packets(bytes) * core.mtu >= bytes,
        core.mtu > 0 && bytes > 0 ==> (core.packets(bytes) - 1) * core.mtu < bytes,
        core.mtu == 0 ==> core.packets(bytes) == bytes,
        bytes == 0 ==> core.packets(bytes) == 0,
        packets(bytes as nat, core.mtu as nat) == core.packets(bytes),
{
    law_packets_are_just_enough(bytes as nat, core.mtu as nat);
    if core.mtu == 0 {
        let n = packets(bytes as nat, 0);
        assert(n * 1 == n && (n - 1) * 1 == n - 1);
    }
}

/// Sending adds the bytes to those in flight, as far as the counter goes, and changes nothing
/// else.
pub proof fn law_sending_adds_bytes(core: BrutalCore, bytes: u64)
    ensures
        core.bytes_in_flight + bytes <= 0xffff_ffff_ffff_ffff ==> sent(core, bytes).bytes_in_flight
            - bytes == core.bytes_in_flight,
        core.bytes_in_flight + bytes > 0xffff_ffff_ffff_ffff ==> sent(core, bytes).bytes_in_flight
            == 0xffff_ffff_ffff_ffff,
        core == (BrutalCore { bytes_in_flight: core.bytes_in_flight, ..sent(core, bytes) }),
{
}

/// An acknowledgement takes the bytes from those in flight, adds the packets they take to
/// those acknowledged, whatever is in flight, takes over the round trip, and changes nothing
/// else.
pub proof fn law_acks_add_packets(core: BrutalCore, bytes: u64, rtt: Span)
    requires
        core.has_ack_room(bytes),
    ensures
        acked(core, bytes, rtt).acked_packets_in_batch - core.acked_packets_in_batch
            == core.packets(bytes),
        bytes <= core.bytes_in_flight ==> acked(core, bytes, rtt).bytes_in_flight + bytes
            == core.bytes_in_flight,
        bytes >= core.bytes_in_flight ==> acked(core, bytes, rtt).bytes_in_flight == 0,
        acked(core, bytes, rtt).smoothed_rtt == Some(rtt),
        core == (BrutalCore {
            bytes_in_flight: core.bytes_in_flight,
            acked_packets_in_batch: core.acked_packets_in_batch,
            smoothed_rtt: core.smoothed_rtt,
            ..acked(core, bytes, rtt)
        }),
{
}

/// A loss takes the bytes from those in flight, adds the packets they take to those lost,
/// whatever is in flight, and changes nothing else.
pub proof fn law_losses_add_packets(core: BrutalCore, bytes: u64)
    requires
        core.has_loss_room(bytes),
    ensures
        lost(core, bytes).lost_packets_in_batch - core.lost_packets_in_batch == core.packets(
            bytes,
        ),
        bytes <= core.bytes_in_flight ==> lost(core, bytes).bytes_in_flight + bytes
            == core.bytes_in_flight,
        bytes >= core.bytes_in_flight ==> lost(core, bytes).bytes_in_flight == 0,
        core == (BrutalCore {
            bytes_in_flight: core.bytes_in_flight,
            lost_packets_in_batch: core.lost_packets_in_batch,
            ..lost(core, bytes)
        }),
{
}

/// Packets can be counted exactly while the counter holds them.
pub proof fn law_room_for_packets(core: BrutalCore, bytes: u64, now: Moment)
    ensures
        core.has_ack_room(bytes) <==> core.acked_packets_in_batch + core.packets(bytes)
            <= 0xffff_ffff_ffff_ffff,
        core.has_loss_room(bytes) <==> core.lost_packets_in_batch + core.packets(bytes)
            <= 0xffff_ffff_ffff_ffff,
        core.has_batch_room(now) <==> core.sample_total(now) <= 0xffff_ffff_ffff_ffff,
        core.has_batch_room(now) <==> core.slots.has_room(core.batch(now)),
{
}

/// A batch is of the second it is closed in and has every packet counted since the last one.
pub proof fn law_batch_is_what_was_counted(core: BrutalCore, now: Moment)
    ensures
        core.batch(now).second == core.second(now),
        core.batch(now).acks == core.acked_packets_in_batch,
        core.batch(now).losses == core.lost_packets_in_batch,
{
}

/// The share is judged by what the slots hold once the batch is recorded: the acknowledged
/// packets among all.
pub proof fn law_sample_is_what_the_slots_hold(core: BrutalCore, now: Moment)
    ensures
        core.sample_acks(now) == fresh_count(
            recorded(core.slots@, core.batch(now)),
            core.second(now),
            Fate::Acked,
        ),
        core.sample_total(now) - core.sample_acks(now) == fresh_count(
            recorded(core.slots@, core.batch(now)),
            core.second(now),
            Fate::Lost,
        ),
{
}

/// Recording sets the share by the packets that the slots then hold: what `ratio` gives for
/// the acknowledged ones and all, or `1.0` where all are fewer than it takes to judge.
/// Nothing but slots and share changes.
pub proof fn law_recording_sets_the_share<R: Fn(u64, u64) -> Double>(
    ratio: R,
    before: BrutalCore,
    now: Moment,
    after: BrutalCore,
    acks: nat,
    losses: nat,
)
    requires
        rated(ratio, before, now, after),
        acks == fresh_count(after.slots@, before.second(now), Fate::Acked),
        losses == fresh_count(after.slots@, before.second(now), Fate::Lost),
    ensures
        after.slots@ == recorded(
            before.slots@,
            (Counts {
                second: before.second(now),
                acks: before.acked_packets_in_batch as nat,
                losses: before.lost_packets_in_batch as nat,
            }),
        ),
        acks + losses < before.config.min_sample_count ==> after.ack_rate.bits
            == 0x3ff0_0000_0000_0000,
        acks + losses >= before.config.min_sample_count ==> call_ensures(
            ratio,
            (acks as u64, (acks + losses) as u64),
            after.ack_rate,
        ),
        before == (BrutalCore { slots: before.slots, ack_rate: before.ack_rate, ..after }),
{
}

/// Closing a batch records it, sets the share by the packets that the slots then hold and
/// the window by that share, and starts the counts from zero. Nothing else changes.
pub proof fn law_closing_sets_share_and_window<
    R: Fn(u64, u64) -> Double,
    P: Fn(WindowInputs) -> u64,
>(
    ratio: R,
    product: P,
    before: BrutalCore,
    now: Moment,
    after: BrutalCore,
    acks: nat,
    losses: nat,
) -> (raw: u64)
    requires
        batch_closed(ratio, product, before, now, after),
        acks == fresh_count(after.slots@, before.second(now), Fate::Acked),
        losses == fresh_count(after.slots@, before.second(now), Fate::Lost),
    ensures
        after.slots@ == recorded(
            before.slots@,
            (Counts {
                second: before.second(now),
                acks: before.acked_packets_in_batch as nat,
                losses: before.lost_packets_in_batch as nat,
            }),
        ),
        acks + losses < before.config.min_sample_count ==> after.ack_rate.bits
            == 0x3ff0_0000_0000_0000,
        acks + losses >= before.config.min_sample_count ==> call_ensures(
            ratio,
            (acks as u64, (acks + losses) as u64),
            after.ack_rate,
        ),
        call_ensures(product, (after.inputs(),), raw),
        after.cwnd >= raw,
        after.cwnd >= after.config.min_window,
        after.cwnd >= after.mtu,
        after.cwnd == raw || after.cwnd == after.config.min_window || after.cwnd == after.mtu,
        after.acked_packets_in_batch == 0,
        after.lost_packets_in_batch == 0,
        before == (BrutalCore {
            slots: before.slots,
            ack_rate: before.ack_rate,
            cwnd: before.cwnd,
            acked_packets_in_batch: before.acked_packets_in_batch,
            lost_packets_in_batch: before.lost_packets_in_batch,
            ..after
        }),
{
    law_batch_closed(ratio, product, before, now, after);
    let (rate_set, window_set) = choose|rate_set: BrutalCore, window_set: BrutalCore|
        {
            &&& #[trigger] rated(ratio, before, now, rate_set)
            &&& #[trigger] refreshed(product, rate_set, window_set)
            &&& after == (BrutalCore {
                acked_packets_in_batch: 0,
                lost_packets_in_batch: 0,
                ..window_set
            })
        };
    law_recording_sets_the_share(ratio, before, now, rate_set, acks, losses);
    law_window_is_the_computed_width(product, after, after.cwnd)
}

/// Computing the window anew sets it to the width that the formula gives for the state, or to
/// a floor above that, and changes nothing else.
pub proof fn law_refreshing_sets_the_window<P: Fn(WindowInputs) -> u64>(
    product: P,
    before: BrutalCore,
    after: BrutalCore,
) -> (raw: u64)
    requires
        refreshed(product, before, after),
    ensures
        call_ensures(product, (before.inputs(),), raw),
        call_ensures(product, (after.inputs(),), raw),
        after.cwnd >= raw,
        after.cwnd >= before.config.min_window,
        after.cwnd >= before.mtu,
        after.cwnd == raw || after.cwnd == before.config.min_window || after.cwnd
            == before.mtu,
        before == (BrutalCore { cwnd: before.cwnd, ..after }),
{
    assert(after.inputs() == before.inputs());
    law_window_is_the_computed_width(product, before, after.cwnd)
}

/// A controller starts with the configuration, moment and packet size it was given, with
/// nothing counted and nothing recorded, and with the window that the formula gives for the
/// configured bandwidth, round trip and gain, or a floor above that.
pub proof fn law_starting_from_the_configuration<P: Fn(WindowInputs) -> u64>(
    product: P,
    config: BrutalConfigCore,
    now: Moment,
    mtu: u16,
    state: BrutalCore,
) -> (raw: u64)
    requires
        started(product, config, now, mtu, state),
    ensures
        state.config == config,
        state.base_time == now,
        state.mtu == mtu,
        state.bytes_in_flight == 0,
        state.smoothed_rtt is None,
        state.bandwidth_hint_bps is None,
        state.ack_rate.bits == 0x3ff0_0000_0000_0000,
        state.acked_packets_in_batch == 0,
        state.lost_packets_in_batch == 0,
        state.slots@.len() == 5,
        forall|i: int|
            0 <= i < 5 ==> (#[trigger] state.slots@[i]).second == 0 && state.slots@[i].acks == 0
                && state.slots@[i].losses == 0,
        call_ensures(product, (state.inputs(),), raw),
        state.inputs().bps == config.default_bandwidth_bps,
        state.inputs().rtt == config.initial_rtt,
        state.inputs().cwnd_gain == config.cwnd_gain,
        state.cwnd >= raw,
        state.cwnd >= config.min_window,
        state.cwnd >= mtu,
        state.cwnd == raw || state.cwnd == config.min_window || state.cwnd == mtu,
{
    law_window_is_the_computed_width(product, state, state.cwnd)
}

/// A gain is refused exactly where it is a number that is zero or has a sign, told by its
/// bits.
pub proof fn law_refused_gains(control: BrutalControl, gain: Double)
    ensures
        control.cwnd_gain is None ==> !gain_refused(control),
        control.cwnd_gain == Some(gain) ==> (gain_refused(control) <==> gain.bits == 0
            || 0x8000_0000_0000_0000 <= gain.bits <= 0xfff0_0000_0000_0000),
{
    law_nan_by_bits(gain);
    law_nan_by_bits(Double { bits: 0 });
    if !gain.is_nan() {
        law_order_by_bits(gain, Double { bits: 0 });
    }
}

/// A bandwidth hint is always taken over as it is, with a window for the new state.
pub proof fn law_hint_is_taken_over<P: Fn(WindowInputs) -> u64>(
    product: P,
    before: BrutalCore,
    bps: u64,
    after: BrutalCore,
    result: Result<(), ConfigError>,
)
    requires
        applied(product, before, CongestionParameter::PeerBandwidthHint(bps), after, result),
    ensures
        result is Ok,
        after.bandwidth_hint_bps == Some(bps),
        called_for(product, after, after.cwnd),
        before == (BrutalCore {
            bandwidth_hint_bps: before.bandwidth_hint_bps,
            cwnd: before.cwnd,
            ..after
        }),
{
    assert(after.inputs() == (BrutalCore { bandwidth_hint_bps: Some(bps), ..before }).inputs());
}

/// A gain that is a number, zero or with a sign, is refused and changes nothing. Every other
/// gain is taken over as it is, with a window for the new state.
pub proof fn law_gain_is_taken_over_or_refused<P: Fn(WindowInputs) -> u64>(
    product: P,
    before: BrutalCore,
    gain: Double,
    after: BrutalCore,
    result: Result<(), ConfigError>,
)
    requires
        applied(product, before, CongestionParameter::CwndGain(gain), after, result),
    ensures
        result is Err <==> gain.bits == 0 || 0x8000_0000_0000_0000 <= gain.bits
            <= 0xfff0_0000_0000_0000,
        result is Err ==> after == before,
        result is Ok ==> {
            &&& after.config.cwnd_gain == gain
            &&& called_for(product, after, after.cwnd)
            &&& before == (BrutalCore {
                config: BrutalConfigCore {
                    cwnd_gain: before.config.cwnd_gain,
                    ..after.config
                },
                cwnd: before.cwnd,
                ..after
            })
        },
{
    law_refused_gains(BrutalControl { cwnd_gain: Some(gain), ..BrutalControl::idle() }, gain);
    assert(result is Ok ==> after.inputs() == (BrutalCore {
        config: BrutalConfigCore { cwnd_gain: gain, ..before.config },
        ..before
    }).inputs());
}

/// The compensation switch is always taken over as it is, with a window for the new state.
pub proof fn law_switch_is_taken_over<P: Fn(WindowInputs) -> u64>(
    product: P,
    before: BrutalCore,
    enable: bool,
    after: BrutalCore,
    result: Result<(), ConfigError>,
)
    requires
        applied(product, before, CongestionParameter::AckCompensation(enable), after, result),
    ensures
        result is Ok,
        after.config.enable_ack_rate_compensation == enable,
        called_for(product, after, after.cwnd),
        before == (BrutalCore {
            config: BrutalConfigCore {
                enable_ack_rate_compensation: before.config.enable_ack_rate_compensation,
                ..after.config
            },
            cwnd: before.cwnd,
            ..after
        }),
{
    assert(after.inputs() == (BrutalCore {
        config: BrutalConfigCore { enable_ack_rate_compensation: enable, ..before.config },
        ..before
    }).inputs());
}

/// Catching up takes over every parameter that waits as it was set, and changes nothing else
/// but the window. Only a gain that is a number, zero or with a sign, is left out, and with
/// it the switch, which alone goes on waiting.
pub proof fn law_catching_up_takes_what_waits<P: Fn(WindowInputs) -> u64>(
    product: P,
    control: BrutalControl,
    before: BrutalCore,
    after: BrutalCore,
    refused: bool,
)
    requires
        caught_up(product, control, before, after),
        refused <==> (control.cwnd_gain matches Some(gain) && (gain.bits == 0
            || 0x8000_0000_0000_0000 <= gain.bits <= 0xfff0_0000_0000_0000)),
    ensures
        after == (BrutalCore {
            config: BrutalConfigCore {
                cwnd_gain: if !refused && control.cwnd_gain is Some {
                    control.cwnd_gain->0
                } else {
                    before.config.cwnd_gain
                },
                enable_ack_rate_compensation: if !refused && control.ack_compensation is Some {
                    control.ack_compensation->0
                } else {
                    before.config.enable_ack_rate_compensation
                },
                ..before.config
            },
            bandwidth_hint_bps: if control.peer_bandwidth_hint is Some {
                control.peer_bandwidth_hint
            } else {
                before.bandwidth_hint_bps
            },
            cwnd: after.cwnd,
            ..before
        }),
        control.peer_bandwidth_hint is Some || !refused && (control.cwnd_gain is Some
            || control.ack_compensation is Some) ==> called_for(product, after, after.cwnd),
        control.peer_bandwidth_hint is None && (refused || control.cwnd_gain is None
            && control.ack_compensation is None) ==> after == before,
        drained(control).peer_bandwidth_hint is None,
        drained(control).cwnd_gain is None,
        drained(control).ack_compensation == if refused {
            control.ack_compensation
        } else {
            None
        },
{
    if control.cwnd_gain is Some {
        law_refused_gains(control, control.cwnd_gain->0);
    }
    assert(refused == gain_refused(control));
    law_caught_up_parameters_hold(product, control, before, after);
    law_parameters_touch_nothing_else(product, control, before, after);
    if takes_any(control) {
        law_caught_up_window_is_current(product, control, before, after);
    }
}

/// A default configuration has the bandwidth it is for, a tenth of a second to reckon with,
/// sixteen kibibytes at least, fifty packets to judge by, and no compensation. The window
/// gain is five quarters, and the floor of the share is the double nearest to four fifths.
pub proof fn law_defaults(config: BrutalConfigCore, bps: u64)
    requires
        config.is_default_for(bps),
    ensures
        config.default_bandwidth_bps == bps,
        config.initial_rtt@ * 10 == 1_000_000_000,
        config.min_window == 16 * 1024,
        config.min_sample_count == 50,
        !config.enable_ack_rate_compensation,
        4 * config.cwnd_gain.units() == 5 * (Double { bits: 0x3ff0_0000_0000_0000 }).units(),
        5 * config.min_ack_rate.units() >= 4 * (Double { bits: 0x3ff0_0000_0000_0000 }).units(),
        5 * config.min_ack_rate.units() - 4 * (Double { bits: 0x3ff0_0000_0000_0000 }).units()
            < 4 * (Double { bits: 0x3ff0_0000_0000_0000 }).units() - 5 * (Double {
            bits: (config.min_ack_rate.bits - 1) as u64,
        }).units(),
{
    let scale = pow2(1021);
    lemma_pow2_pos(1021);
    lemma_pow2_unfold(1022);
    assert(units_of(0x3ff0_0000_0000_0000) == 0x10_0000_0000_0000 * pow2(1022));
    assert(units_of(0x3ff4_0000_0000_0000) == 0x14_0000_0000_0000 * pow2(1022));
    assert(units_of(0x3fe9_9999_9999_999a) == 0x19_9999_9999_999a * scale);
    assert(units_of(0x3fe9_9999_9999_9999) == 0x19_9999_9999_9999 * scale);
}

} // verus!
