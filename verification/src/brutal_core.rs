//! The fixed-rate congestion controller: what it counts, and how wide it keeps the window.
//!
//! Two of its quantities come from double-precision arithmetic, which the caller does: the
//! share of acknowledged packets (`ratio`) and the window that the target rate calls for
//! (`product`). Both are taken as functions. What they are given, and what is made of their
//! results, is decided and proved here, for every function that a caller may pass.
use vstd::arithmetic::div_mod::{lemma_fundamental_div_mod, lemma_fundamental_div_mod_converse};
use vstd::prelude::*;

use crate::double::{Double, ONE_BITS};
use crate::slots::{blank, fresh_acks, fresh_total, recorded, Counts, SlotRing};
use crate::time::{Moment, Span, NANOS_PER_SEC};

verus! {

/// Default share of the window on top of what the target rate calls for, `1.25`.
pub const DEFAULT_CWND_GAIN_BITS: u64 = 0x3ff4_0000_0000_0000;

/// Default floor of the acknowledged share, `0.8`.
pub const DEFAULT_MIN_ACK_RATE_BITS: u64 = 0x3fe9_9999_9999_999a;

/// Configuration for the Brutal congestion controller.
#[derive(Debug)]
pub struct BrutalConfigCore {
    /// Bits per second to aim at while the peer gives no hint.
    pub default_bandwidth_bps: u64,
    /// Round trip to reckon with before one was reported.
    pub initial_rtt: Span,
    /// Bytes that the window holds at least.
    pub min_window: u64,
    /// Factor on the window that the target rate calls for.
    pub cwnd_gain: Double,
    /// Floor of the acknowledged share that the window makes up for.
    pub min_ack_rate: Double,
    /// Packets it takes to judge the acknowledged share by.
    pub min_sample_count: u64,
    /// Whether the window makes up for lost packets.
    pub enable_ack_rate_compensation: bool,
}

impl Clone for BrutalConfigCore {
    fn clone(&self) -> (r: BrutalConfigCore)
        ensures
            r == *self,
    {
        BrutalConfigCore {
            default_bandwidth_bps: self.default_bandwidth_bps,
            initial_rtt: self.initial_rtt,
            min_window: self.min_window,
            cwnd_gain: self.cwnd_gain,
            min_ack_rate: self.min_ack_rate,
            min_sample_count: self.min_sample_count,
            enable_ack_rate_compensation: self.enable_ack_rate_compensation,
        }
    }
}

impl BrutalConfigCore {
    /// Whether this is the default configuration, but for the bandwidth.
    pub open spec fn is_default_for(&self, default_bandwidth_bps: u64) -> bool {
        &&& self.default_bandwidth_bps == default_bandwidth_bps
        &&& self.initial_rtt@ == 100_000_000
        &&& self.min_window == 16_384
        &&& self.cwnd_gain.bits == DEFAULT_CWND_GAIN_BITS
        &&& self.min_ack_rate.bits == DEFAULT_MIN_ACK_RATE_BITS
        &&& self.min_sample_count == 50
        &&& !self.enable_ack_rate_compensation
    }

    /// The default configuration for a given bandwidth.
    pub fn new(default_bandwidth_bps: u64) -> (r: BrutalConfigCore)
        ensures
            r.is_default_for(default_bandwidth_bps),
            r.default_bandwidth_bps == default_bandwidth_bps,
            r.initial_rtt@ == 100_000_000,
            r.min_window == 16_384,
            r.cwnd_gain.bits == 0x3ff4_0000_0000_0000,
            r.min_ack_rate.bits == 0x3fe9_9999_9999_999a,
            r.min_sample_count == 50,
            !r.enable_ack_rate_compensation,
    {
        BrutalConfigCore { default_bandwidth_bps, ..BrutalConfigCore::default() }
    }
}

impl Default for BrutalConfigCore {
    fn default() -> (r: BrutalConfigCore)
        ensures
            r.is_default_for(1_000_000),
            r.default_bandwidth_bps == 1_000_000,
            r.initial_rtt@ == 100_000_000,
            r.min_window == 16_384,
            r.cwnd_gain.bits == 0x3ff4_0000_0000_0000,
            r.min_ack_rate.bits == 0x3fe9_9999_9999_999a,
            r.min_sample_count == 50,
            !r.enable_ack_rate_compensation,
    {
        BrutalConfigCore {
            default_bandwidth_bps: 1_000_000,
            initial_rtt: Span::from_millis(100),
            min_window: 16 * 1024,
            cwnd_gain: Double { bits: DEFAULT_CWND_GAIN_BITS },
            min_ack_rate: Double { bits: DEFAULT_MIN_ACK_RATE_BITS },
            min_sample_count: 50,
            enable_ack_rate_compensation: false,
        }
    }
}

/// What the window is computed from: `bps * rtt * cwnd_gain / ack_rate / 8` bytes.
#[derive(Clone, Copy, Debug)]
pub struct WindowInputs {
    pub bps: u64,
    pub rtt: Span,
    pub cwnd_gain: Double,
    pub ack_rate: Double,
}

/// The state of one controller.
#[derive(Debug)]
pub struct BrutalCore {
    pub config: BrutalConfigCore,
    /// When the controller was started.
    pub base_time: Moment,
    /// Bytes that a packet carries at most.
    pub mtu: u64,
    /// Bytes sent and neither acknowledged nor lost.
    pub bytes_in_flight: u64,
    /// The round trip last reported.
    pub smoothed_rtt: Option<Span>,
    /// The bandwidth that the peer asks for.
    pub bandwidth_hint_bps: Option<u64>,
    /// Share of the packets of the last few seconds that were acknowledged.
    pub ack_rate: Double,
    /// Packets of the last few seconds.
    pub slots: SlotRing,
    /// Packets acknowledged since the last batch was closed.
    pub acked_packets_in_batch: u64,
    /// Packets lost since the last batch was closed.
    pub lost_packets_in_batch: u64,
    /// The window as last computed, in bytes.
    pub cwnd: u64,
}

impl Clone for BrutalCore {
    fn clone(&self) -> (r: BrutalCore)
        ensures
            r == *self,
    {
        BrutalCore {
            config: self.config.clone(),
            base_time: self.base_time,
            mtu: self.mtu,
            bytes_in_flight: self.bytes_in_flight,
            smoothed_rtt: self.smoothed_rtt,
            bandwidth_hint_bps: self.bandwidth_hint_bps,
            ack_rate: self.ack_rate,
            slots: self.slots.clone(),
            acked_packets_in_batch: self.acked_packets_in_batch,
            lost_packets_in_batch: self.lost_packets_in_batch,
            cwnd: self.cwnd,
        }
    }
}

/// `a` or `b`, whichever is larger.
pub open spec fn larger(a: u64, b: u64) -> u64 {
    if a >= b {
        a
    } else {
        b
    }
}

/// The bytes that a packet carries: at least one.
pub open spec fn packet_size(mtu: nat) -> nat {
    if mtu == 0 {
        1
    } else {
        mtu
    }
}

/// How many packets it takes to carry `bytes`: the quotient, rounded up.
pub open spec fn packets(bytes: nat, mtu: nat) -> nat {
    (bytes + packet_size(mtu) - 1) as nat / packet_size(mtu)
}

/// `a + b`, at most the largest count.
pub open spec fn plus(a: u64, b: u64) -> u64 {
    if a + b <= u64::MAX {
        (a + b) as u64
    } else {
        u64::MAX
    }
}

/// `a - b`, at least zero.
pub open spec fn minus(a: u64, b: u64) -> u64 {
    if a >= b {
        (a - b) as u64
    } else {
        0
    }
}

/// Whether `window` is what `core` calls for, as `product` computes it.
pub open spec fn called_for<P: Fn(WindowInputs) -> u64>(
    product: P,
    core: BrutalCore,
    window: u64,
) -> bool {
    exists|raw: u64|
        #![trigger call_ensures(product, (core.inputs(),), raw)]
        call_ensures(product, (core.inputs(),), raw) && window == core.floored(raw)
}

/// The state after `before`'s window was computed anew with `product`.
pub open spec fn refreshed<P: Fn(WindowInputs) -> u64>(
    product: P,
    before: BrutalCore,
    after: BrutalCore,
) -> bool {
    &&& called_for(product, before, after.cwnd)
    &&& after == (BrutalCore { cwnd: after.cwnd, ..before })
}

/// The state after the packets counted were recorded at `now` and the acknowledged share
/// was set: all of them where there are too few to judge by, what `ratio` makes of the
/// counts otherwise.
pub open spec fn rated<R: Fn(u64, u64) -> Double>(
    ratio: R,
    before: BrutalCore,
    now: Moment,
    after: BrutalCore,
) -> bool {
    &&& after.slots@ == recorded(before.slots@, before.batch(now))
    &&& after == (BrutalCore { slots: after.slots, ack_rate: after.ack_rate, ..before })
    &&& if before.sample_total(now) < before.config.min_sample_count {
        after.ack_rate.bits == ONE_BITS
    } else {
        call_ensures(
            ratio,
            (before.sample_acks(now) as u64, before.sample_total(now) as u64),
            after.ack_rate,
        )
    }
}

/// The state of a controller started at `now` on a path of `mtu` bytes per packet.
pub open spec fn started<P: Fn(WindowInputs) -> u64>(
    product: P,
    config: BrutalConfigCore,
    now: Moment,
    mtu: u16,
    state: BrutalCore,
) -> bool {
    &&& state.config == config
    &&& state.base_time == now
    &&& state.mtu == mtu
    &&& state.bytes_in_flight == 0
    &&& state.smoothed_rtt is None
    &&& state.bandwidth_hint_bps is None
    &&& state.ack_rate.bits == ONE_BITS
    &&& state.slots@ == blank()
    &&& state.acked_packets_in_batch == 0
    &&& state.lost_packets_in_batch == 0
    &&& called_for(product, state, state.cwnd)
}

/// The state after bytes were sent.
pub open spec fn sent(before: BrutalCore, bytes: u64) -> BrutalCore {
    BrutalCore { bytes_in_flight: plus(before.bytes_in_flight, bytes), ..before }
}

/// The state after bytes were acknowledged.
pub open spec fn acked(before: BrutalCore, bytes: u64, rtt: Span) -> BrutalCore {
    BrutalCore {
        bytes_in_flight: minus(before.bytes_in_flight, bytes),
        acked_packets_in_batch: (before.acked_packets_in_batch + before.packets(bytes)) as u64,
        smoothed_rtt: Some(rtt),
        ..before
    }
}

/// The state after bytes were lost.
pub open spec fn lost(before: BrutalCore, bytes: u64) -> BrutalCore {
    BrutalCore {
        bytes_in_flight: minus(before.bytes_in_flight, bytes),
        lost_packets_in_batch: (before.lost_packets_in_batch + before.packets(bytes)) as u64,
        ..before
    }
}

/// The state after a batch was closed at `now`.
pub open spec fn batch_closed<R: Fn(u64, u64) -> Double, P: Fn(WindowInputs) -> u64>(
    ratio: R,
    product: P,
    before: BrutalCore,
    now: Moment,
    after: BrutalCore,
) -> bool {
    exists|rate_set: BrutalCore, window_set: BrutalCore|
        {
            &&& #[trigger] rated(ratio, before, now, rate_set)
            &&& #[trigger] refreshed(product, rate_set, window_set)
            &&& after == (BrutalCore {
                acked_packets_in_batch: 0,
                lost_packets_in_batch: 0,
                ..window_set
            })
        }
}

impl BrutalCore {
    /// The bandwidth aimed at.
    pub open spec fn target(&self) -> u64 {
        match self.bandwidth_hint_bps {
            Some(bps) => bps,
            None => self.config.default_bandwidth_bps,
        }
    }

    /// The round trip reckoned with.
    pub open spec fn rtt(&self) -> Span {
        match self.smoothed_rtt {
            Some(rtt) => rtt,
            None => self.config.initial_rtt,
        }
    }

    /// The acknowledged share that the window makes up for.
    pub open spec fn compensated_rate(&self) -> Double {
        if self.config.enable_ack_rate_compensation {
            self.ack_rate.larger(self.config.min_ack_rate)
        } else {
            Double { bits: ONE_BITS }
        }
    }

    /// What the window is computed from.
    pub open spec fn inputs(&self) -> WindowInputs {
        WindowInputs {
            bps: self.target(),
            rtt: self.rtt(),
            cwnd_gain: self.config.cwnd_gain,
            ack_rate: self.compensated_rate(),
        }
    }

    /// The window for a computed width: never below the configured minimum nor one packet.
    pub open spec fn floored(&self, raw: u64) -> u64 {
        larger(larger(raw, self.config.min_window), self.mtu)
    }

    /// The second that `now` falls in, counted from the start of the controller.
    pub open spec fn second(&self, now: Moment) -> nat {
        if now@ >= self.base_time@ {
            ((now@ - self.base_time@) / (NANOS_PER_SEC as int)) as nat
        } else {
            0
        }
    }

    /// The packets counted since the last batch, as a batch of the second of `now`.
    pub open spec fn batch(&self, now: Moment) -> Counts {
        Counts {
            second: self.second(now),
            acks: self.acked_packets_in_batch as nat,
            losses: self.lost_packets_in_batch as nat,
        }
    }

    /// Packets that count towards the acknowledged share once the batch is recorded.
    pub open spec fn sample_total(&self, now: Moment) -> nat {
        fresh_total(recorded(self.slots@, self.batch(now)), self.second(now))
    }

    /// Acknowledged packets among them.
    pub open spec fn sample_acks(&self, now: Moment) -> nat {
        fresh_acks(recorded(self.slots@, self.batch(now)), self.second(now))
    }

    /// How many packets it takes to carry `bytes`.
    pub open spec fn packets(&self, bytes: u64) -> nat {
        packets(bytes as nat, self.mtu as nat)
    }

    /// Whether the packets of `bytes` can be counted as acknowledged.
    pub open spec fn has_ack_room(&self, bytes: u64) -> bool {
        self.acked_packets_in_batch + self.packets(bytes) <= u64::MAX
    }

    /// Whether the packets of `bytes` can be counted as lost.
    pub open spec fn has_loss_room(&self, bytes: u64) -> bool {
        self.lost_packets_in_batch + self.packets(bytes) <= u64::MAX
    }

    /// Whether the batch can be closed at `now` with every count staying in range.
    pub open spec fn has_batch_room(&self, now: Moment) -> bool {
        self.sample_total(now) <= u64::MAX
    }

    /// Starts a controller at `now`, on a path of `current_mtu` bytes per packet.
    pub fn new<P: Fn(WindowInputs) -> u64>(
        config: BrutalConfigCore,
        now: Moment,
        current_mtu: u16,
        product: &P,
    ) -> (r: BrutalCore)
        requires
            forall|inputs: WindowInputs| call_requires(*product, (inputs,)),
        ensures
            started(*product, config, now, current_mtu, r),
    {
        let mut me = BrutalCore {
            config,
            base_time: now,
            mtu: current_mtu as u64,
            bytes_in_flight: 0,
            smoothed_rtt: None,
            bandwidth_hint_bps: None,
            ack_rate: Double::one(),
            slots: SlotRing::new(),
            acked_packets_in_batch: 0,
            lost_packets_in_batch: 0,
            cwnd: 0,
        };
        let ghost start = me;
        me.cwnd = me.compute_cwnd(product);
        assert(start.inputs() == me.inputs());
        me
    }

    /// The bandwidth aimed at: the peer's hint where there is one.
    pub fn target_bps(&self) -> (r: u64)
        ensures
            r == self.target(),
    {
        self.bandwidth_hint_bps.unwrap_or(self.config.default_bandwidth_bps)
    }

    /// The round trip reckoned with: the last one reported, the configured one before that.
    pub fn current_rtt(&self) -> (r: Span)
        ensures
            r == self.rtt(),
    {
        self.smoothed_rtt.unwrap_or(self.config.initial_rtt)
    }

    /// The acknowledged share that the window makes up for: not below the configured
    /// floor, and all of it where compensation is off.
    pub fn effective_ack_rate(&self) -> (r: Double)
        ensures
            r == self.compensated_rate(),
            !self.config.enable_ack_rate_compensation ==> r.bits == 0x3ff0_0000_0000_0000,
            self.config.enable_ack_rate_compensation ==> r == self.ack_rate || r
                == self.config.min_ack_rate,
            self.config.enable_ack_rate_compensation && self.ack_rate.at_most(
                self.config.min_ack_rate,
            ) && !self.config.min_ack_rate.at_most(self.ack_rate) ==> r
                == self.config.min_ack_rate,
            self.config.enable_ack_rate_compensation && self.config.min_ack_rate.at_most(
                self.ack_rate,
            ) ==> r == self.ack_rate,
    {
        if self.config.enable_ack_rate_compensation {
            self.ack_rate.max(self.config.min_ack_rate)
        } else {
            Double::one()
        }
    }

    /// How many packets it takes to carry `bytes`.
    pub fn estimate_packets(&self, bytes: u64) -> (r: u64)
        ensures
            r == self.packets(bytes),
    {
        let size: u64 = if self.mtu == 0 {
            1
        } else {
            self.mtu
        };
        let full: u64 = bytes / size;
        let rest: u64 = bytes % size;
        proof {
            lemma_ceiling(bytes as nat, size as nat);
            assert(size == 1 ==> rest == 0);
            assert(full <= bytes / 2 || size == 1) by (nonlinear_arith)
                requires
                    full == bytes as int / size as int,
                    size >= 1,
            ;
        }
        if rest == 0 {
            full
        } else {
            full + 1
        }
    }

    /// The second that `now` falls in, counted from the start of the controller.
    pub fn now_sec(&self, now: Moment) -> (r: u64)
        ensures
            r == self.second(now),
            now.since_origin@ >= self.base_time.since_origin@ ==> r * 1_000_000_000
                <= now.since_origin@ - self.base_time.since_origin@ < (r + 1) * 1_000_000_000,
            now.since_origin@ < self.base_time.since_origin@ ==> r == 0,
    {
        now.saturating_span_since(self.base_time).as_secs()
    }

    /// What the window is computed from.
    pub fn window_inputs(&self) -> (r: WindowInputs)
        ensures
            r == self.inputs(),
    {
        WindowInputs {
            bps: self.target_bps(),
            rtt: self.current_rtt(),
            cwnd_gain: self.config.cwnd_gain,
            ack_rate: self.effective_ack_rate(),
        }
    }

    /// The window for a computed width: the configured minimum and one packet at least.
    pub fn floor_window(&self, raw: u64) -> (r: u64)
        ensures
            r == self.floored(raw),
            r >= raw,
            r >= self.config.min_window,
            r >= self.mtu,
            r == raw || r == self.config.min_window || r == self.mtu,
    {
        let at_least_min: u64 = if raw >= self.config.min_window {
            raw
        } else {
            self.config.min_window
        };
        if at_least_min >= self.mtu {
            at_least_min
        } else {
            self.mtu
        }
    }

    /// The window that the present state calls for.
    pub fn compute_cwnd<P: Fn(WindowInputs) -> u64>(&self, product: &P) -> (r: u64)
        requires
            forall|inputs: WindowInputs| call_requires(*product, (inputs,)),
        ensures
            called_for(*product, *self, r),
    {
        let raw: u64 = product(self.window_inputs());
        self.floor_window(raw)
    }

    /// Whether the batch can be closed at `now` with every count staying in range.
    pub fn batch_fits(&self, now: Moment) -> (r: bool)
        ensures
            r == self.has_batch_room(now),
    {
        let ts: u64 = self.now_sec(now);
        self.slots.fits(ts, self.acked_packets_in_batch, self.lost_packets_in_batch)
    }

    /// Records the packets counted since the last batch. Gives the acknowledged packets and
    /// all packets of the last few seconds, or nothing where there are too few to judge by.
    pub fn sample_batch(&mut self, now: Moment) -> (r: Option<(u64, u64)>)
        requires
            old(self).has_batch_room(now),
        ensures
            final(self).slots@ == recorded(old(self).slots@, old(self).batch(now)),
            *final(self) == (BrutalCore { slots: final(self).slots, ..*old(self) }),
            r == if old(self).sample_total(now) < old(self).config.min_sample_count {
                None::<(u64, u64)>
            } else {
                Some((old(self).sample_acks(now) as u64, old(self).sample_total(now) as u64))
            },
    {
        let ts: u64 = self.now_sec(now);
        self.slots.record(ts, self.acked_packets_in_batch, self.lost_packets_in_batch);
        let (ack, loss): (u64, u64) = self.slots.fresh_counts(ts);
        let total: u64 = ack + loss;
        if total < self.config.min_sample_count {
            None
        } else {
            Some((ack, total))
        }
    }

    /// Records the packets counted since the last batch and sets the acknowledged share of
    /// the last few seconds.
    pub fn update_ack_rate<R: Fn(u64, u64) -> Double>(&mut self, now: Moment, ratio: &R)
        requires
            old(self).has_batch_room(now),
            forall|acks: u64, total: u64| call_requires(*ratio, (acks, total)),
        ensures
            rated(*ratio, *old(self), now, *final(self)),
    {
        match self.sample_batch(now) {
            None => {
                self.ack_rate = Double::one();
            },
            Some((ack, total)) => {
                self.ack_rate = ratio(ack, total);
            },
        }
    }

    /// Computes the window anew.
    pub fn refresh_cwnd<P: Fn(WindowInputs) -> u64>(&mut self, product: &P)
        requires
            forall|inputs: WindowInputs| call_requires(*product, (inputs,)),
        ensures
            refreshed(*product, *old(self), *final(self)),
    {
        self.cwnd = self.compute_cwnd(product);
    }

    /// Takes over a reported round trip.
    pub fn update_smoothed_rtt(&mut self, rtt: Span)
        ensures
            *final(self) == (BrutalCore { smoothed_rtt: Some(rtt), ..*old(self) }),
    {
        self.smoothed_rtt = Some(rtt);
    }

    /// The window to start with.
    pub fn initial_window<P: Fn(WindowInputs) -> u64>(&self, product: &P) -> (r: u64)
        requires
            forall|inputs: WindowInputs| call_requires(*product, (inputs,)),
        ensures
            called_for(*product, *self, r),
    {
        self.compute_cwnd(product)
    }

    /// The window as last computed.
    pub fn window_cached(&self) -> (r: u64)
        ensures
            r == self.cwnd,
    {
        self.cwnd
    }

    /// The window, computed anew but not kept.
    pub fn window_recomputed<P: Fn(WindowInputs) -> u64>(&self, product: &P) -> (r: u64)
        requires
            forall|inputs: WindowInputs| call_requires(*product, (inputs,)),
        ensures
            called_for(*product, *self, r),
    {
        self.compute_cwnd(product)
    }

    /// Counts bytes as sent.
    pub fn on_sent(&mut self, bytes: u64)
        ensures
            *final(self) == sent(*old(self), bytes),
            old(self).bytes_in_flight + bytes <= u64::MAX ==> final(self).bytes_in_flight
                == old(self).bytes_in_flight + bytes,
    {
        self.bytes_in_flight = self.bytes_in_flight.saturating_add(bytes);
    }

    /// Whether the packets of `bytes` can be counted as acknowledged.
    pub fn ack_fits(&self, bytes: u64) -> (r: bool)
        ensures
            r == self.has_ack_room(bytes),
    {
        self.estimate_packets(bytes) <= u64::MAX - self.acked_packets_in_batch
    }

    /// Counts bytes as acknowledged and takes over the round trip.
    pub fn on_ack_bytes(&mut self, bytes: u64, rtt: Span)
        requires
            old(self).has_ack_room(bytes),
        ensures
            *final(self) == acked(*old(self), bytes, rtt),
            final(self).acked_packets_in_batch == old(self).acked_packets_in_batch + old(
                self,
            ).packets(bytes),
            final(self).lost_packets_in_batch == old(self).lost_packets_in_batch,
            final(self).smoothed_rtt == Some(rtt),
    {
        self.bytes_in_flight = self.bytes_in_flight.saturating_sub(bytes);
        self.acked_packets_in_batch = self.acked_packets_in_batch + self.estimate_packets(bytes);
        self.update_smoothed_rtt(rtt);
    }

    /// Whether the packets of `lost_bytes` can be counted as lost.
    pub fn loss_fits(&self, lost_bytes: u64) -> (r: bool)
        ensures
            r == self.has_loss_room(lost_bytes),
    {
        self.estimate_packets(lost_bytes) <= u64::MAX - self.lost_packets_in_batch
    }

    /// Counts bytes as lost.
    pub fn on_loss_bytes(&mut self, lost_bytes: u64)
        requires
            old(self).has_loss_room(lost_bytes),
        ensures
            *final(self) == lost(*old(self), lost_bytes),
            final(self).lost_packets_in_batch == old(self).lost_packets_in_batch + old(
                self,
            ).packets(lost_bytes),
            final(self).acked_packets_in_batch == old(self).acked_packets_in_batch,
            final(self).smoothed_rtt == old(self).smoothed_rtt,
    {
        self.bytes_in_flight = self.bytes_in_flight.saturating_sub(lost_bytes);
        if lost_bytes > 0 {
            self.lost_packets_in_batch = self.lost_packets_in_batch + self.estimate_packets(
                lost_bytes,
            );
        } else {
            proof {
                lemma_no_bytes_no_packets(self.mtu as nat);
            }
        }
    }

    /// Closes a batch of acknowledgements: records what was counted, computes share and
    /// window anew, and starts counting from zero.
    pub fn on_end_acks<R: Fn(u64, u64) -> Double, P: Fn(WindowInputs) -> u64>(
        &mut self,
        now: Moment,
        ratio: &R,
        product: &P,
    )
        requires
            old(self).has_batch_room(now),
            forall|acks: u64, total: u64| call_requires(*ratio, (acks, total)),
            forall|inputs: WindowInputs| call_requires(*product, (inputs,)),
        ensures
            batch_closed(*ratio, *product, *old(self), now, *final(self)),
    {
        self.update_ack_rate(now, ratio);
        let ghost rate_set = *self;
        self.refresh_cwnd(product);
        let ghost window_set = *self;
        self.acked_packets_in_batch = 0;
        self.lost_packets_in_batch = 0;
        assert(rated(*ratio, *old(self), now, rate_set));
        assert(refreshed(*product, rate_set, window_set));
    }

    /// Takes over a new packet size.
    pub fn on_mtu_update<P: Fn(WindowInputs) -> u64>(&mut self, new_mtu: u16, product: &P)
        requires
            forall|inputs: WindowInputs| call_requires(*product, (inputs,)),
        ensures
            refreshed(
                *product,
                (BrutalCore { mtu: new_mtu as u64, ..*old(self) }),
                *final(self),
            ),
    {
        self.mtu = new_mtu as u64;
        self.refresh_cwnd(product);
    }

    /// Takes over the bandwidth that the peer asks for, or drops it.
    pub fn set_peer_bandwidth_hint<P: Fn(WindowInputs) -> u64>(
        &mut self,
        bps: Option<u64>,
        product: &P,
    )
        requires
            forall|inputs: WindowInputs| call_requires(*product, (inputs,)),
        ensures
            refreshed(
                *product,
                (BrutalCore { bandwidth_hint_bps: bps, ..*old(self) }),
                *final(self),
            ),
    {
        self.bandwidth_hint_bps = bps;
        self.refresh_cwnd(product);
    }
}

/// The quotient rounded up, by whether there is a remainder.
proof fn lemma_ceiling(bytes: nat, size: nat)
    requires
        size > 0,
    ensures
        packets(bytes, size) == bytes / size + if bytes % size == 0 {
            0nat
        } else {
            1
        },
{
    let full = bytes / size;
    let rest = bytes % size;
    lemma_fundamental_div_mod(bytes as int, size as int);
    if rest == 0 {
        lemma_fundamental_div_mod_converse(
            bytes + size - 1,
            size as int,
            full as int,
            size - 1,
        );
    } else {
        assert((full + 1) * size == size * full + size) by (nonlinear_arith);
        lemma_fundamental_div_mod_converse(
            bytes + size - 1,
            size as int,
            full as int + 1,
            rest - 1,
        );
    }
}

/// Nothing to carry takes no packet.
proof fn lemma_no_bytes_no_packets(mtu: nat)
    ensures
        packets(0, mtu) == 0,
{
    lemma_ceiling(0, packet_size(mtu));
}

} // verus!
