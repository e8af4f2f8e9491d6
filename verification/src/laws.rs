//! What holds of the controller as a whole.
use vstd::arithmetic::div_mod::{
    lemma_div_is_ordered, lemma_fundamental_div_mod, lemma_mod_bound,
};
use vstd::prelude::*;

use crate::brutal_core::{
    acked, batch_closed, called_for, lost, packet_size, packets, rated, refreshed, sent, started,
    BrutalConfigCore, BrutalCore, WindowInputs,
};
use crate::control::{BrutalControl, CongestionParameter};
use crate::controller::{
    applied_if_any, caught_up, drained, gain_refused, waiting_gain, waiting_hint,
    waiting_switch,
};
use crate::double::{law_zero_is_the_least, Double, INFINITY_BITS, ONE_BITS};
use crate::registry::{law_keys_tell_addresses_apart, RegistryView, RemoteAddr};
use crate::slots::{
    aligned, in_order, law_fresh_slots_are_the_recent_batches, law_record_keeps_alignment,
    recent_count, recorded, replay, Counts, Fate,
};
use crate::time::{Moment, Span, NANOS_PER_SEC};

verus! {

/// Whether `product` gives one result for one set of inputs.
pub open spec fn is_function<P: Fn(WindowInputs) -> u64>(product: P) -> bool {
    forall|inputs: WindowInputs, a: u64, b: u64| #[trigger]
        call_ensures(product, (inputs,), a) && #[trigger] call_ensures(product, (inputs,), b)
            ==> a == b
}

/// Whether `ratio` gives one result for one part of at least one packet.
pub open spec fn is_share_function<R: Fn(u64, u64) -> Double>(ratio: R) -> bool {
    forall|acks: u64, total: u64, a: Double, b: Double|
        acks <= total && total >= 1 && #[trigger] call_ensures(ratio, (acks, total), a)
            && #[trigger] call_ensures(ratio, (acks, total), b) ==> a == b
}

/// Whether the share after a recording at `now` is not one of no packets at all.
pub open spec fn judged_by_packets(core: BrutalCore, now: Moment) -> bool {
    core.config.min_sample_count >= 1 || core.sample_total(now) >= 1
}

/// Whether a double is a number from `0.0` to `1.0`.
pub open spec fn is_share(share: Double) -> bool {
    Double { bits: 0 }.at_most(share) && share.at_most(Double { bits: ONE_BITS })
}

/// Whether a double is a number above `0.0`, up to `1.0`.
pub open spec fn is_positive_share(share: Double) -> bool {
    is_share(share) && !share.at_most(Double { bits: 0 })
}

/// Whether a window gain is a finite number and not negative.
pub open spec fn is_plain_gain(gain: Double) -> bool {
    gain.magnitude() < INFINITY_BITS && Double { bits: 0 }.at_most(gain)
}

/// Whether `ratio` gives a number from `0.0` to `1.0` for a part of at least one packet.
pub open spec fn gives_shares<R: Fn(u64, u64) -> Double>(ratio: R) -> bool {
    forall|acks: u64, total: u64, share: Double|
        acks <= total && total >= 1 && #[trigger] call_ensures(ratio, (acks, total), share)
            ==> is_share(share)
}

/// Whether `product` does not shrink while bandwidth and round trip grow, for a plain gain
/// and a positive share.
pub open spec fn grows_with_rate_and_rtt<P: Fn(WindowInputs) -> u64>(product: P) -> bool {
    forall|small: WindowInputs, large: WindowInputs, a: u64, b: u64|
        {
            &&& small.bps <= large.bps
            &&& small.rtt@ <= large.rtt@
            &&& small.cwnd_gain == large.cwnd_gain
            &&& small.ack_rate == large.ack_rate
            &&& is_plain_gain(small.cwnd_gain)
            &&& is_positive_share(small.ack_rate)
            &&& #[trigger] call_ensures(product, (small,), a)
            &&& #[trigger] call_ensures(product, (large,), b)
        } ==> a <= b
}

/// Whether `product` does not shrink while a positive share gets smaller, for a plain gain.
pub open spec fn grows_with_losses<P: Fn(WindowInputs) -> u64>(product: P) -> bool {
    forall|inputs: WindowInputs, less: Double, a: u64, b: u64|
        {
            &&& is_plain_gain(inputs.cwnd_gain)
            &&& is_positive_share(inputs.ack_rate)
            &&& is_positive_share(less)
            &&& less.at_most(inputs.ack_rate)
            &&& #[trigger] call_ensures(product, (inputs,), a)
            &&& #[trigger] call_ensures(
                product,
                (WindowInputs { ack_rate: less, ..inputs },),
                b,
            )
        } ==> a <= b
}

/// Whether the floor of the share is not above `1.0`.
pub open spec fn no_floor_above_one(config: BrutalConfigCore) -> bool {
    config.min_ack_rate.is_nan() || config.min_ack_rate.at_most(Double { bits: ONE_BITS })
}

/// The width that the formula gave for a window that is called for.
proof fn lemma_raw_width<P: Fn(WindowInputs) -> u64>(
    product: P,
    core: BrutalCore,
    window: u64,
) -> (raw: u64)
    requires
        called_for(product, core, window),
    ensures
        call_ensures(product, (core.inputs(),), raw),
        window == core.floored(raw),
{
    choose|raw: u64|
        #![trigger call_ensures(product, (core.inputs(),), raw)]
        call_ensures(product, (core.inputs(),), raw) && window == core.floored(raw)
}

/// The states of a batch closed: with the share set, then with the window set.
proof fn lemma_batch_stages<R: Fn(u64, u64) -> Double, P: Fn(WindowInputs) -> u64>(
    ratio: R,
    product: P,
    before: BrutalCore,
    now: Moment,
    after: BrutalCore,
) -> (r: (BrutalCore, BrutalCore))
    requires
        batch_closed(ratio, product, before, now, after),
    ensures
        rated(ratio, before, now, r.0),
        refreshed(product, r.0, r.1),
        after == (BrutalCore { acked_packets_in_batch: 0, lost_packets_in_batch: 0, ..r.1 }),
{
    choose|rate_set: BrutalCore, window_set: BrutalCore|
        {
            &&& #[trigger] rated(ratio, before, now, rate_set)
            &&& #[trigger] refreshed(product, rate_set, window_set)
            &&& after == (BrutalCore {
                acked_packets_in_batch: 0,
                lost_packets_in_batch: 0,
                ..window_set
            })
        }
}

/// Whatever was computed, the window holds the configured minimum and one packet.
pub proof fn law_window_floor<P: Fn(WindowInputs) -> u64>(
    product: P,
    core: BrutalCore,
    window: u64,
)
    requires
        called_for(product, core, window),
    ensures
        window >= core.config.min_window,
        window >= core.mtu,
{
}

/// The window of a controller just started holds the configured minimum and one packet.
pub proof fn law_first_window_floor<P: Fn(WindowInputs) -> u64>(
    product: P,
    config: BrutalConfigCore,
    now: Moment,
    mtu: u16,
    state: BrutalCore,
)
    requires
        started(product, config, now, mtu, state),
    ensures
        state.cwnd >= config.min_window,
        state.cwnd >= mtu,
{
}

/// A window computed anew holds the configured minimum and one packet, and nothing else
/// changes with it.
pub proof fn law_refresh_floor<P: Fn(WindowInputs) -> u64>(
    product: P,
    before: BrutalCore,
    after: BrutalCore,
)
    requires
        refreshed(product, before, after),
    ensures
        after.cwnd >= after.config.min_window,
        after.cwnd >= after.mtu,
        before == (BrutalCore { cwnd: before.cwnd, ..after }),
{
}

/// Once computed, the window stays what the state calls for: computing it again gives it
/// again.
pub proof fn law_cached_window_is_recomputed<P: Fn(WindowInputs) -> u64>(
    product: P,
    before: BrutalCore,
    after: BrutalCore,
    window: u64,
)
    requires
        is_function(product),
        refreshed(product, before, after),
        called_for(product, after, window),
    ensures
        window == after.cwnd,
{
    assert(after.inputs() == before.inputs());
}

/// A controller just started shows its initial window.
pub proof fn law_starts_with_initial_window<P: Fn(WindowInputs) -> u64>(
    product: P,
    config: BrutalConfigCore,
    now: Moment,
    mtu: u16,
    state: BrutalCore,
    window: u64,
)
    requires
        is_function(product),
        started(product, config, now, mtu, state),
        called_for(product, state, window),
    ensures
        window == state.cwnd,
{
}

/// The estimated packets carry the bytes, and one packet fewer would not.
pub proof fn law_packets_are_just_enough(bytes: nat, mtu: nat)
    ensures
        packets(bytes, mtu) * packet_size(mtu) >= bytes,
        bytes > 0 ==> (packets(bytes, mtu) - 1) * packet_size(mtu) < bytes,
        bytes == 0 ==> packets(bytes, mtu) == 0,
{
    let size = packet_size(mtu);
    let n = packets(bytes, mtu);
    let x = (bytes + size - 1) as nat;
    lemma_fundamental_div_mod(x as int, size as int);
    lemma_mod_bound(x as int, size as int);
    assert(n * size == size * n && (n - 1) * size == size * n - size) by (nonlinear_arith);
    if bytes == 0 && n > 0 {
        assert(size * n >= size) by (nonlinear_arith)
            requires
                n > 0,
                size > 0,
        ;
    }
}

/// Bytes sent and then acknowledged leave as many in flight as before.
pub proof fn law_ack_undoes_sent(core: BrutalCore, bytes: u64, rtt: Span)
    requires
        core.bytes_in_flight + bytes <= u64::MAX,
    ensures
        acked(sent(core, bytes), bytes, rtt).bytes_in_flight == core.bytes_in_flight,
{
}

/// Bytes sent and then lost leave as many in flight as before.
pub proof fn law_loss_undoes_sent(core: BrutalCore, bytes: u64)
    requires
        core.bytes_in_flight + bytes <= u64::MAX,
    ensures
        lost(sent(core, bytes), bytes).bytes_in_flight == core.bytes_in_flight,
{
}

/// Counting packets moves neither the window nor what it is computed from, but for the
/// round trip that an acknowledgement brings.
pub proof fn law_counting_leaves_the_window(core: BrutalCore, bytes: u64, rtt: Span)
    ensures
        sent(core, bytes).cwnd == core.cwnd,
        sent(core, bytes).inputs() == core.inputs(),
        lost(core, bytes).cwnd == core.cwnd,
        lost(core, bytes).inputs() == core.inputs(),
        acked(core, bytes, rtt).cwnd == core.cwnd,
        acked(core, bytes, rtt).inputs() == (WindowInputs { rtt, ..core.inputs() }),
{
}

/// Closing a batch starts the counts from zero, keeps the window above its floor, and
/// touches only slots, share, window and counts.
pub proof fn law_batch_closed<R: Fn(u64, u64) -> Double, P: Fn(WindowInputs) -> u64>(
    ratio: R,
    product: P,
    before: BrutalCore,
    now: Moment,
    after: BrutalCore,
)
    requires
        batch_closed(ratio, product, before, now, after),
    ensures
        after.acked_packets_in_batch == 0,
        after.lost_packets_in_batch == 0,
        after.slots@ == recorded(before.slots@, before.batch(now)),
        called_for(product, after, after.cwnd),
        after.cwnd >= after.config.min_window,
        after.cwnd >= after.mtu,
        after == (BrutalCore {
            ack_rate: after.ack_rate,
            slots: after.slots,
            acked_packets_in_batch: 0,
            lost_packets_in_batch: 0,
            cwnd: after.cwnd,
            ..before
        }),
{
    let (rate_set, window_set) = lemma_batch_stages(ratio, product, before, now, after);
    assert(after.inputs() == rate_set.inputs());
}

/// Closing a batch sets the share that recording it alone would set, and then the window
/// that this share calls for.
pub proof fn law_batch_closed_sets_share_then_window<
    R: Fn(u64, u64) -> Double,
    P: Fn(WindowInputs) -> u64,
>(
    ratio: R,
    product: P,
    before: BrutalCore,
    now: Moment,
    after: BrutalCore,
    recorded_alone: BrutalCore,
    window_then: u64,
    window_again: u64,
)
    requires
        is_share_function(ratio),
        is_function(product),
        judged_by_packets(before, now),
        before.has_batch_room(now),
        batch_closed(ratio, product, before, now, after),
        rated(ratio, before, now, recorded_alone),
        called_for(product, recorded_alone, window_then),
        called_for(product, after, window_again),
    ensures
        after.ack_rate == recorded_alone.ack_rate,
        after.slots@ == recorded_alone.slots@,
        after.cwnd == window_then,
        after.cwnd == window_again,
        after.acked_packets_in_batch == 0,
        after.lost_packets_in_batch == 0,
{
    law_batch_closed(ratio, product, before, now, after);
    assert(after.inputs() == recorded_alone.inputs());
}

/// Closing a batch a second time at the same moment changes nothing: an empty batch adds
/// no packets.
pub proof fn law_closing_again_changes_nothing<
    R: Fn(u64, u64) -> Double,
    P: Fn(WindowInputs) -> u64,
>(
    ratio: R,
    product: P,
    before: BrutalCore,
    now: Moment,
    once: BrutalCore,
    twice: BrutalCore,
)
    requires
        is_share_function(ratio),
        is_function(product),
        judged_by_packets(before, now),
        before.has_batch_room(now),
        batch_closed(ratio, product, before, now, once),
        batch_closed(ratio, product, once, now, twice),
    ensures
        twice.slots@ == once.slots@,
        twice == (BrutalCore { slots: twice.slots, ..once }),
{
    law_batch_closed(ratio, product, before, now, once);
    law_batch_closed(ratio, product, once, now, twice);
    before.slots.law_slot_count();
    assert(recorded(once.slots@, once.batch(now)) =~= once.slots@);
    assert(once.sample_total(now) == before.sample_total(now));
    assert(once.sample_acks(now) == before.sample_acks(now));
    assert(twice.ack_rate == once.ack_rate);
    assert(twice.inputs() == once.inputs());
}

/// Judged by at least one packet, the acknowledged share is a number from `0.0` to `1.0`
/// after each recording, whatever came before and whichever way time runs.
pub proof fn law_share_is_a_share<R: Fn(u64, u64) -> Double>(
    ratio: R,
    before: BrutalCore,
    now: Moment,
    after: BrutalCore,
)
    requires
        gives_shares(ratio),
        judged_by_packets(before, now),
        before.has_batch_room(now),
        rated(ratio, before, now, after),
    ensures
        !after.ack_rate.is_nan(),
        is_share(after.ack_rate),
{
    if before.sample_total(now) < before.config.min_sample_count {
        assert(after.ack_rate == Double { bits: ONE_BITS });
        lemma_one_is_a_share();
    }
}

/// The acknowledged share is a number from `0.0` to `1.0` when a controller starts, and
/// after each batch judged by at least one packet.
pub proof fn law_share_stays_a_share<R: Fn(u64, u64) -> Double, P: Fn(WindowInputs) -> u64>(
    ratio: R,
    product: P,
    config: BrutalConfigCore,
    now: Moment,
    mtu: u16,
    before: BrutalCore,
    after: BrutalCore,
)
    requires
        gives_shares(ratio),
    ensures
        batch_closed(ratio, product, before, now, after) && judged_by_packets(before, now)
            && before.has_batch_room(now) ==> is_share(after.ack_rate),
        started(product, config, now, mtu, after) ==> is_share(after.ack_rate),
{
    if batch_closed(ratio, product, before, now, after) && judged_by_packets(before, now)
        && before.has_batch_room(now) {
        let (rate_set, window_set) = lemma_batch_stages(ratio, product, before, now, after);
        law_share_is_a_share(ratio, before, now, rate_set);
    }
    if started(product, config, now, mtu, after) {
        assert(after.ack_rate == Double { bits: ONE_BITS });
        lemma_one_is_a_share();
    }
}

/// `1.0` is a positive share.
proof fn lemma_one_is_a_share()
    ensures
        is_positive_share((Double { bits: ONE_BITS })),
{
    law_zero_is_the_least(Double { bits: ONE_BITS });
}

/// More bandwidth or a longer round trip does not narrow the window, where the formula for
/// it does not shrink with them.
pub proof fn law_window_grows_with_rate_and_rtt<P: Fn(WindowInputs) -> u64>(
    product: P,
    small: BrutalCore,
    large: BrutalCore,
    small_window: u64,
    large_window: u64,
)
    requires
        grows_with_rate_and_rtt(product),
        small.config.cwnd_gain == large.config.cwnd_gain,
        is_plain_gain(small.config.cwnd_gain),
        small.inputs().ack_rate == large.inputs().ack_rate,
        is_positive_share(small.inputs().ack_rate),
        small.config.min_window <= large.config.min_window,
        small.mtu <= large.mtu,
        small.target() <= large.target(),
        small.rtt()@ <= large.rtt()@,
        called_for(product, small, small_window),
        called_for(product, large, large_window),
    ensures
        small_window <= large_window,
{
    let a = lemma_raw_width(product, small, small_window);
    let b = lemma_raw_width(product, large, large_window);
    assert(a <= b);
}

/// Compensation only widens the window, where the formula for it does not shrink as the
/// share gets smaller.
pub proof fn law_compensation_only_widens<P: Fn(WindowInputs) -> u64>(
    product: P,
    core: BrutalCore,
    on: BrutalCore,
    off: BrutalCore,
    on_window: u64,
    off_window: u64,
)
    requires
        grows_with_losses(product),
        is_plain_gain(core.config.cwnd_gain),
        is_positive_share(core.ack_rate),
        is_positive_share(core.config.min_ack_rate),
        on == (BrutalCore {
            config: BrutalConfigCore { enable_ack_rate_compensation: true, ..core.config },
            ..core
        }),
        off == (BrutalCore {
            config: BrutalConfigCore { enable_ack_rate_compensation: false, ..core.config },
            ..core
        }),
        called_for(product, on, on_window),
        called_for(product, off, off_window),
    ensures
        on_window >= off_window,
{
    let made_up_for = on.inputs().ack_rate;
    lemma_one_is_a_share();
    assert(is_positive_share(made_up_for));
    assert(on.inputs() == (WindowInputs { ack_rate: made_up_for, ..off.inputs() }));
    let a = lemma_raw_width(product, off, off_window);
    let b = lemma_raw_width(product, on, on_window);
    assert(a <= b);
}

/// With every packet acknowledged, compensation makes no difference, for every gain and
/// every floor that is not above `1.0`.
pub proof fn law_compensation_without_losses<P: Fn(WindowInputs) -> u64>(
    product: P,
    core: BrutalCore,
    on: BrutalCore,
    off: BrutalCore,
    on_window: u64,
    off_window: u64,
)
    requires
        is_function(product),
        core.ack_rate.bits == ONE_BITS,
        no_floor_above_one(core.config),
        on == (BrutalCore {
            config: BrutalConfigCore { enable_ack_rate_compensation: true, ..core.config },
            ..core
        }),
        off == (BrutalCore {
            config: BrutalConfigCore { enable_ack_rate_compensation: false, ..core.config },
            ..core
        }),
        called_for(product, on, on_window),
        called_for(product, off, off_window),
    ensures
        on_window == off_window,
{
    assert(core.ack_rate == Double { bits: ONE_BITS });
    assert(on.inputs() == off.inputs());
}

/// A new controller has the same window with and without compensation: it has seen no loss
/// to make up for.
pub proof fn law_first_window_ignores_compensation<P: Fn(WindowInputs) -> u64>(
    product: P,
    config: BrutalConfigCore,
    now: Moment,
    mtu: u16,
    on: BrutalCore,
    off: BrutalCore,
)
    requires
        is_function(product),
        no_floor_above_one(config),
        started(
            product,
            (BrutalConfigCore { enable_ack_rate_compensation: true, ..config }),
            now,
            mtu,
            on,
        ),
        started(
            product,
            (BrutalConfigCore { enable_ack_rate_compensation: false, ..config }),
            now,
            mtu,
            off,
        ),
    ensures
        on.cwnd == off.cwnd,
{
    assert(on.ack_rate == Double { bits: ONE_BITS });
    assert(on.inputs() == off.inputs());
}

/// Controllers of one configuration start alike, whatever became of those before them.
pub proof fn law_starts_are_alike<P: Fn(WindowInputs) -> u64>(
    product: P,
    config: BrutalConfigCore,
    now: Moment,
    mtu: u16,
    first: BrutalCore,
    second: BrutalCore,
)
    requires
        is_function(product),
        started(product, config, now, mtu, first),
        started(product, config, now, mtu, second),
    ensures
        first.slots@ == second.slots@,
        first == (BrutalCore { slots: first.slots, ..second }),
{
    assert(first.ack_rate == second.ack_rate);
    assert(first.inputs() == second.inputs());
}

/// With too few packets to judge by, every packet counts as acknowledged.
pub proof fn law_few_samples_count_as_acked<
    R: Fn(u64, u64) -> Double,
    P: Fn(WindowInputs) -> u64,
>(ratio: R, product: P, before: BrutalCore, now: Moment, after: BrutalCore)
    requires
        batch_closed(ratio, product, before, now, after),
        before.sample_total(now) < before.config.min_sample_count,
    ensures
        after.ack_rate.bits == ONE_BITS,
{
}

/// With enough packets to judge by, the acknowledged share is what `ratio` makes of the
/// acknowledged packets and all packets.
pub proof fn law_enough_samples_set_the_share<
    R: Fn(u64, u64) -> Double,
    P: Fn(WindowInputs) -> u64,
>(ratio: R, product: P, before: BrutalCore, now: Moment, after: BrutalCore)
    requires
        batch_closed(ratio, product, before, now, after),
        before.sample_total(now) >= before.config.min_sample_count,
    ensures
        call_ensures(
            ratio,
            (before.sample_acks(now) as u64, before.sample_total(now) as u64),
            after.ack_rate,
        ),
{
}

/// While time does not run backwards, the share is judged by exactly the batches of the
/// last few seconds.
pub proof fn law_share_is_of_recent_batches(
    core: BrutalCore,
    history: Seq<Counts>,
    now: Moment,
)
    requires
        core.slots@ == replay(history),
        in_order(history.push(core.batch(now))),
    ensures
        core.sample_acks(now) == recent_count(
            history.push(core.batch(now)),
            core.second(now),
            Fate::Acked,
        ),
        core.sample_total(now) == recent_count(
            history.push(core.batch(now)),
            core.second(now),
            Fate::Acked,
        ) + recent_count(history.push(core.batch(now)), core.second(now), Fate::Lost),
{
    let all = history.push(core.batch(now));
    assert(all.drop_last() =~= history);
    law_fresh_slots_are_the_recent_batches(all, Fate::Acked);
    law_fresh_slots_are_the_recent_batches(all, Fate::Lost);
}

/// The slots keep up with the history: recording a batch adds it as the last one.
pub proof fn law_recording_extends_history<R: Fn(u64, u64) -> Double>(
    ratio: R,
    before: BrutalCore,
    now: Moment,
    after: BrutalCore,
    history: Seq<Counts>,
)
    requires
        before.slots@ == replay(history),
        rated(ratio, before, now, after),
    ensures
        after.slots@ == replay(history.push(before.batch(now))),
{
    assert(history.push(before.batch(now)).drop_last() =~= history);
}

/// The slots keep up with the history: closing a batch adds it as the last one.
pub proof fn law_slots_follow_history<R: Fn(u64, u64) -> Double, P: Fn(WindowInputs) -> u64>(
    ratio: R,
    product: P,
    before: BrutalCore,
    now: Moment,
    after: BrutalCore,
    history: Seq<Counts>,
)
    requires
        before.slots@ == replay(history),
        batch_closed(ratio, product, before, now, after),
    ensures
        after.slots@ == replay(history.push(before.batch(now))),
{
    assert(history.push(before.batch(now)).drop_last() =~= history);
}

/// Each slot of a controller is blank or holds a second that belongs to it: so from the
/// start, and after each batch.
pub proof fn law_slots_stay_aligned<R: Fn(u64, u64) -> Double, P: Fn(WindowInputs) -> u64>(
    ratio: R,
    product: P,
    config: BrutalConfigCore,
    now: Moment,
    mtu: u16,
    before: BrutalCore,
    after: BrutalCore,
)
    ensures
        started(product, config, now, mtu, after) ==> aligned(after.slots@),
        aligned(before.slots@) && batch_closed(ratio, product, before, now, after) ==> aligned(
            after.slots@,
        ),
{
    if aligned(before.slots@) {
        law_record_keeps_alignment(before.slots@, before.batch(now));
    }
}

/// Later moments fall in later seconds or the same, and moments before the start in the
/// first.
pub proof fn law_seconds_follow_time(core: BrutalCore, earlier: Moment, later: Moment)
    requires
        earlier@ <= later@,
    ensures
        core.second(earlier) <= core.second(later),
        later@ <= core.base_time@ ==> core.second(later) == 0,
{
    if earlier@ >= core.base_time@ {
        lemma_div_is_ordered(
            earlier@ - core.base_time@,
            later@ - core.base_time@,
            NANOS_PER_SEC as int,
        );
    }
}

/// Without compensation the window does not depend on how many packets were lost.
pub proof fn law_no_compensation_ignores_losses(core: BrutalCore, other_share: Double)
    requires
        !core.config.enable_ack_rate_compensation,
    ensures
        core.inputs().ack_rate.bits == ONE_BITS,
        (BrutalCore { ack_rate: other_share, ..core }).inputs() == core.inputs(),
{
}

/// Without compensation, two controllers of equal settings, packet size, round trip and hint
/// have equal windows after any batches.
pub proof fn law_no_compensation_equal_windows<
    R: Fn(u64, u64) -> Double,
    P: Fn(WindowInputs) -> u64,
>(
    ratio: R,
    product: P,
    a: BrutalCore,
    a_now: Moment,
    a_after: BrutalCore,
    b: BrutalCore,
    b_now: Moment,
    b_after: BrutalCore,
)
    requires
        is_function(product),
        a.config == b.config,
        a.mtu == b.mtu,
        a.smoothed_rtt == b.smoothed_rtt,
        a.bandwidth_hint_bps == b.bandwidth_hint_bps,
        !a.config.enable_ack_rate_compensation,
        batch_closed(ratio, product, a, a_now, a_after),
        batch_closed(ratio, product, b, b_now, b_after),
    ensures
        a_after.cwnd == b_after.cwnd,
{
    law_batch_closed(ratio, product, a, a_now, a_after);
    law_batch_closed(ratio, product, b, b_now, b_after);
    assert(a_after.inputs() == b_after.inputs());
}

/// With compensation the share that the window makes up for is not below the configured
/// floor, and is the measured share where that lies above it.
pub proof fn law_compensation_floor(core: BrutalCore)
    requires
        core.config.enable_ack_rate_compensation,
        !core.config.min_ack_rate.is_nan(),
    ensures
        core.config.min_ack_rate.at_most(core.inputs().ack_rate),
        core.config.min_ack_rate.at_most(core.ack_rate) ==> core.inputs().ack_rate
            == core.ack_rate,
{
}

/// A bandwidth hint is the bandwidth aimed at, and dropping it brings the configured one
/// back.
pub proof fn law_hint_is_the_target(core: BrutalCore, bps: u64)
    ensures
        (BrutalCore { bandwidth_hint_bps: Some(bps), ..core }).target() == bps,
        (BrutalCore { bandwidth_hint_bps: None, ..core }).target()
            == core.config.default_bandwidth_bps,
{
}

/// Whether `states` are those of a controller that was given `hints`, one after the other.
pub open spec fn hinted<P: Fn(WindowInputs) -> u64>(
    product: P,
    hints: Seq<Option<u64>>,
    states: Seq<BrutalCore>,
) -> bool {
    &&& states.len() == hints.len() + 1
    &&& forall|i: int|
        0 <= i < hints.len() ==> refreshed(
            product,
            BrutalCore { bandwidth_hint_bps: #[trigger] hints[i], ..states[i] },
            states[i + 1],
        )
}

/// Hints change the hint and the window, however many there are.
proof fn lemma_hints_change_little<P: Fn(WindowInputs) -> u64>(
    product: P,
    hints: Seq<Option<u64>>,
    states: Seq<BrutalCore>,
    n: int,
)
    requires
        hinted(product, hints, states),
        0 <= n <= hints.len(),
    ensures
        states[n] == (BrutalCore {
            bandwidth_hint_bps: states[n].bandwidth_hint_bps,
            cwnd: states[n].cwnd,
            ..states[0]
        }),
    decreases n,
{
    if n > 0 {
        lemma_hints_change_little(product, hints, states, n - 1);
        assert(refreshed(
            product,
            BrutalCore { bandwidth_hint_bps: hints[n - 1], ..states[n - 1] },
            states[n],
        ));
    }
}

/// Dropping the hint after any number of hints brings back the state from before them, its
/// window included.
pub proof fn law_dropping_the_hint_restores<P: Fn(WindowInputs) -> u64>(
    product: P,
    hints: Seq<Option<u64>>,
    states: Seq<BrutalCore>,
    after: BrutalCore,
)
    requires
        is_function(product),
        hinted(product, hints, states),
        states[0].bandwidth_hint_bps is None,
        called_for(product, states[0], states[0].cwnd),
        refreshed(product, (BrutalCore { bandwidth_hint_bps: None, ..states.last() }), after),
    ensures
        after == states[0],
        after.target() == after.config.default_bandwidth_bps,
{
    lemma_hints_change_little(product, hints, states, hints.len() as int);
    let dropped = BrutalCore { bandwidth_hint_bps: None, ..states.last() };
    assert(dropped == BrutalCore { cwnd: dropped.cwnd, ..states[0] });
    assert(dropped.inputs() == states[0].inputs());
}

/// Bytes counted as sent or lost.
pub enum Counted {
    Sent(u64),
    Lost(u64),
}

/// The state after bytes were counted, one count after the other.
pub open spec fn after_counts(core: BrutalCore, counts: Seq<Counted>) -> BrutalCore
    decreases counts.len(),
{
    if counts.len() == 0 {
        core
    } else {
        let before = after_counts(core, counts.drop_last());
        match counts.last() {
            Counted::Sent(bytes) => sent(before, bytes),
            Counted::Lost(bytes) => lost(before, bytes),
        }
    }
}

/// A window computed anew, for a start, a batch or a change, is the one that the state calls
/// for.
pub proof fn law_new_window_is_current<R: Fn(u64, u64) -> Double, P: Fn(WindowInputs) -> u64>(
    ratio: R,
    product: P,
    config: BrutalConfigCore,
    now: Moment,
    mtu: u16,
    before: BrutalCore,
    after: BrutalCore,
)
    ensures
        started(product, config, now, mtu, after) ==> called_for(product, after, after.cwnd),
        refreshed(product, before, after) ==> called_for(product, after, after.cwnd),
        batch_closed(ratio, product, before, now, after) ==> called_for(
            product,
            after,
            after.cwnd,
        ),
{
    if refreshed(product, before, after) {
        assert(after.inputs() == before.inputs());
    }
    if batch_closed(ratio, product, before, now, after) {
        law_batch_closed(ratio, product, before, now, after);
    }
}

/// The kept window stays the one that the state calls for while bytes are sent and lost.
pub proof fn law_counting_keeps_the_window_current<P: Fn(WindowInputs) -> u64>(
    product: P,
    core: BrutalCore,
    counts: Seq<Counted>,
)
    requires
        called_for(product, core, core.cwnd),
    ensures
        called_for(product, after_counts(core, counts), after_counts(core, counts).cwnd),
        after_counts(core, counts).cwnd == core.cwnd,
        after_counts(core, counts).inputs() == core.inputs(),
        after_counts(core, counts).config == core.config,
        after_counts(core, counts).mtu == core.mtu,
    decreases counts.len(),
{
    if counts.len() > 0 {
        law_counting_keeps_the_window_current(product, core, counts.drop_last());
        assert(after_counts(core, counts).inputs() == after_counts(
            core,
            counts.drop_last(),
        ).inputs());
    }
}

/// While bytes are sent and lost, the kept window is what computing it again gives.
pub proof fn law_kept_window_is_recomputed<P: Fn(WindowInputs) -> u64>(
    product: P,
    core: BrutalCore,
    counts: Seq<Counted>,
    window: u64,
)
    requires
        is_function(product),
        called_for(product, core, core.cwnd),
        called_for(product, after_counts(core, counts), window),
    ensures
        window == after_counts(core, counts).cwnd,
{
    law_counting_keeps_the_window_current(product, core, counts);
}

/// Whether the window holds the configured minimum and one packet.
pub open spec fn above_floor(core: BrutalCore) -> bool {
    core.cwnd >= core.config.min_window && core.cwnd >= core.mtu
}

/// Every event of a controller keeps the window at or above its floor: taking over
/// parameters, counting bytes, closing a batch and changing the packet size.
pub proof fn law_events_keep_the_floor<R: Fn(u64, u64) -> Double, P: Fn(WindowInputs) -> u64>(
    ratio: R,
    product: P,
    control: BrutalControl,
    before: BrutalCore,
    ready: BrutalCore,
    bytes: u64,
    rtt: Span,
    mtu: u64,
    now: Moment,
    after: BrutalCore,
)
    requires
        above_floor(before),
        caught_up(product, control, before, ready),
    ensures
        above_floor(ready),
        above_floor(sent(ready, bytes)),
        above_floor(acked(ready, bytes, rtt)),
        above_floor(lost(ready, bytes)),
        batch_closed(ratio, product, ready, now, after) ==> above_floor(after),
        refreshed(product, (BrutalCore { mtu, ..ready }), after) ==> above_floor(after),
{
    if batch_closed(ratio, product, ready, now, after) {
        law_batch_closed(ratio, product, ready, now, after);
    }
}

/// Where nothing waits, catching up changes nothing.
pub proof fn law_nothing_waits_nothing_changes<P: Fn(WindowInputs) -> u64>(
    product: P,
    before: BrutalCore,
    after: BrutalCore,
)
    requires
        caught_up(product, BrutalControl::idle(), before, after),
    ensures
        after == before,
        drained(BrutalControl::idle()) == BrutalControl::idle(),
{
}

/// A parameter is taken over at most once: what was taken no longer waits, and what is left
/// after a refused gain is taken the next time.
pub proof fn law_parameters_are_taken_once(control: BrutalControl)
    ensures
        drained(control).peer_bandwidth_hint is None,
        drained(control).cwnd_gain is None,
        !gain_refused(control) ==> drained(control) == BrutalControl::idle(),
        drained(drained(control)) == BrutalControl::idle(),
{
}

/// A gain that is zero or negative is refused and changes nothing. The switch that waits
/// behind it goes on waiting.
pub proof fn law_refused_gain_changes_nothing<P: Fn(WindowInputs) -> u64>(
    product: P,
    control: BrutalControl,
    before: BrutalCore,
    after: BrutalCore,
)
    requires
        gain_refused(control),
        caught_up(product, control, before, after),
    ensures
        after.config == before.config,
        control.peer_bandwidth_hint is None ==> after == before,
        drained(control).ack_compensation == control.ack_compensation,
{
}

/// After catching up, every parameter that waited and was not refused holds.
pub proof fn law_caught_up_parameters_hold<P: Fn(WindowInputs) -> u64>(
    product: P,
    control: BrutalControl,
    before: BrutalCore,
    after: BrutalCore,
)
    requires
        caught_up(product, control, before, after),
    ensures
        after.bandwidth_hint_bps == if control.peer_bandwidth_hint is Some {
            control.peer_bandwidth_hint
        } else {
            before.bandwidth_hint_bps
        },
        after.config.cwnd_gain == if control.cwnd_gain is Some && !gain_refused(control) {
            control.cwnd_gain->0
        } else {
            before.config.cwnd_gain
        },
        after.config.enable_ack_rate_compensation == if control.ack_compensation is Some
            && !gain_refused(control) {
            control.ack_compensation->0
        } else {
            before.config.enable_ack_rate_compensation
        },
{
}

/// Whether something waits that will be taken over.
pub open spec fn takes_any(control: BrutalControl) -> bool {
    ||| control.peer_bandwidth_hint is Some
    ||| !gain_refused(control) && (control.cwnd_gain is Some || control.ack_compensation is Some)
}

/// After something was taken over, the window is the one that the new state calls for. Where
/// nothing was, it still is if it was before.
pub proof fn law_caught_up_window_is_current<P: Fn(WindowInputs) -> u64>(
    product: P,
    control: BrutalControl,
    before: BrutalCore,
    after: BrutalCore,
)
    requires
        caught_up(product, control, before, after),
        takes_any(control) || called_for(product, before, before.cwnd),
    ensures
        called_for(product, after, after.cwnd),
{
    if gain_refused(control) {
        lemma_applied_window_is_current(product, before, waiting_hint(control), after);
    } else {
        let (hint_set, gain_set) = choose|hint_set: BrutalCore, gain_set: BrutalCore|
            {
                &&& #[trigger] applied_if_any(
                    product,
                    before,
                    waiting_hint(control),
                    hint_set,
                    Ok(()),
                )
                &&& #[trigger] applied_if_any(
                    product,
                    hint_set,
                    waiting_gain(control),
                    gain_set,
                    Ok(()),
                )
                &&& applied_if_any(product, gain_set, waiting_switch(control), after, Ok(()))
            };
        lemma_applied_window_is_current(product, before, waiting_hint(control), hint_set);
        lemma_applied_window_is_current(product, hint_set, waiting_gain(control), gain_set);
        lemma_applied_window_is_current(product, gain_set, waiting_switch(control), after);
    }
}

/// After a parameter was taken over, the window is the one that the new state calls for.
/// Where there was none, it still is if it was before.
proof fn lemma_applied_window_is_current<P: Fn(WindowInputs) -> u64>(
    product: P,
    before: BrutalCore,
    param: Option<CongestionParameter>,
    after: BrutalCore,
)
    requires
        applied_if_any(product, before, param, after, Ok(())),
    ensures
        param is Some || called_for(product, before, before.cwnd) ==> called_for(
            product,
            after,
            after.cwnd,
        ),
{
    match param {
        Some(CongestionParameter::PeerBandwidthHint(bps)) => {
            let set = BrutalCore { bandwidth_hint_bps: Some(bps), ..before };
            assert(after.inputs() == set.inputs());
        },
        Some(CongestionParameter::CwndGain(gain)) => {
            let set = BrutalCore {
                config: BrutalConfigCore { cwnd_gain: gain, ..before.config },
                ..before
            };
            assert(after.inputs() == set.inputs());
        },
        Some(CongestionParameter::AckCompensation(enable)) => {
            let set = BrutalCore {
                config: BrutalConfigCore {
                    enable_ack_rate_compensation: enable,
                    ..before.config
                },
                ..before
            };
            assert(after.inputs() == set.inputs());
        },
        None => {},
    }
}

/// A parameter set for the address of a controller just registered waits for that
/// controller, alone.
pub proof fn law_set_reaches_the_registered(
    registry: RegistryView,
    remote: RemoteAddr,
    id: usize,
    param: CongestionParameter,
)
    requires
        !registry.alive(id),
        id <= registry.blocks.len(),
    ensures
        registry.registered(remote, id).reachable(remote),
        registry.registered(remote, id).parameter_set(remote, param).block(id).control
            == BrutalControl::idle().with(param),
        forall|other: usize|
            registry.alive(other) ==> #[trigger] registry.registered(
                remote,
                id,
            ).parameter_set(remote, param).block(other) == registry.block(other),
{
}

/// A parameter set for one address does not reach the controllers of another.
pub proof fn law_set_spares_other_addresses(
    registry: RegistryView,
    remote: RemoteAddr,
    param: CongestionParameter,
    other: usize,
)
    requires
        registry.wf(),
        registry.alive(other),
        registry.block(other).remote != remote,
    ensures
        registry.parameter_set(remote, param).block(other) == registry.block(other),
{
    law_keys_tell_addresses_apart(registry.block(other).remote, remote);
}

/// A parameter is refused exactly where the address is not registered, and a refusal
/// leaves every block as it was and the address unregistered.
pub proof fn law_set_refused_unless_registered(
    registry: RegistryView,
    remote: RemoteAddr,
    param: CongestionParameter,
)
    requires
        registry.wf(),
    ensures
        registry.reachable(remote) <==> registry.entries.contains_key(remote.as_key()),
        !registry.reachable(remote) ==> registry.parameter_set(remote, param) == registry,
{
    if !registry.reachable(remote) {
        assert(registry.entries.remove(remote.as_key()) =~= registry.entries);
    }
}

/// Once a controller is gone, parameters for its address are refused.
pub proof fn law_set_refused_after_release(registry: RegistryView, id: usize, remote: RemoteAddr)
    requires
        registry.alive(id),
    ensures
        !registry.released(id, remote).reachable(remote),
{
}

/// A controller keeps its block while others register, share, set or take over parameters.
pub proof fn law_listeners_stay(
    registry: RegistryView,
    id: usize,
    remote: RemoteAddr,
    newcomer: RemoteAddr,
    place: usize,
    sharer: usize,
    param: CongestionParameter,
    control: BrutalControl,
)
    requires
        registry.holds(id, remote),
    ensures
        !registry.alive(place) && place <= registry.blocks.len() ==> registry.registered(
            newcomer,
            place,
        ).holds(id, remote),
        registry.alive(sharer) && registry.block(sharer).holders < u64::MAX ==> registry.shared(
            sharer,
        ).holds(id, remote),
        registry.alive(sharer) ==> registry.with_control(sharer, control).holds(id, remote),
        registry.parameter_set(newcomer, param).holds(id, remote),
{
}

/// A controller keeps its block while other controllers go, as long as one that shares the
/// block is left.
pub proof fn law_release_spares_other_listeners(
    registry: RegistryView,
    gone: usize,
    gone_remote: RemoteAddr,
    id: usize,
    remote: RemoteAddr,
)
    requires
        registry.holds(gone, gone_remote),
        registry.holds(id, remote),
        id != gone || registry.block(gone).holders > 1,
    ensures
        registry.released(gone, gone_remote).holds(id, remote),
        registry.released(gone, gone_remote).block(id).control == registry.block(id).control,
{
}

/// Sharing a block and letting go of it again changes only whether the address is
/// registered.
pub proof fn law_release_undoes_share(registry: RegistryView, id: usize, remote: RemoteAddr)
    requires
        registry.holds(id, remote),
        registry.block(id).holders < u64::MAX,
    ensures
        registry.shared(id).released(id, remote).blocks == registry.blocks,
        registry.shared(id).released(id, remote).entries == registry.entries.remove(
            remote.as_key(),
        ),
{
    assert(registry.shared(id).released(id, remote).blocks =~= registry.blocks);
}

/// A bandwidth hint set for the address of a new controller is the bandwidth it aims at
/// once it has caught up.
pub proof fn law_hint_set_is_aimed_at<P: Fn(WindowInputs) -> u64>(
    product: P,
    registry: RegistryView,
    remote: RemoteAddr,
    id: usize,
    bps: u64,
    before: BrutalCore,
    after: BrutalCore,
)
    requires
        !registry.alive(id),
        id <= registry.blocks.len(),
        caught_up(
            product,
            registry.registered(remote, id).parameter_set(
                remote,
                CongestionParameter::PeerBandwidthHint(bps),
            ).block(id).control,
            before,
            after,
        ),
    ensures
        after.target() == bps,
        called_for(product, after, after.cwnd),
{
    law_set_reaches_the_registered(
        registry,
        remote,
        id,
        CongestionParameter::PeerBandwidthHint(bps),
    );
    let set = BrutalCore { bandwidth_hint_bps: Some(bps), ..before };
    assert(after.inputs() == set.inputs());
}

} // verus!
