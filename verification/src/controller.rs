//! A controller that takes over parameters set for its remote address.
use vstd::prelude::*;

use crate::brutal_core::{
    acked, batch_closed, called_for, lost, refreshed, sent, started, BrutalConfigCore,
    BrutalCore, WindowInputs, DEFAULT_CWND_GAIN_BITS,
};
use crate::control::{BrutalControl, ConfigError, CongestionParameter};
use crate::double::Double;
use crate::registry::{Registry, RegistryView, RemoteAddr};
use crate::time::{Moment, Span};

verus! {

/// Configuration of the controllers of an endpoint.
#[derive(Debug)]
pub struct BrutalConfig(pub BrutalConfigCore);

impl Clone for BrutalConfig {
    fn clone(&self) -> (r: BrutalConfig)
        ensures
            r == *self,
    {
        BrutalConfig(self.0.clone())
    }
}

impl Default for BrutalConfig {
    fn default() -> (r: BrutalConfig)
        ensures
            r.0.is_default_for(1_000_000),
            r.0.default_bandwidth_bps == 1_000_000,
            r.0.initial_rtt@ == 100_000_000,
            r.0.min_window == 16_384,
            r.0.cwnd_gain.bits == 0x3ff4_0000_0000_0000,
            r.0.min_ack_rate.bits == 0x3fe9_9999_9999_999a,
            r.0.min_sample_count == 50,
            !r.0.enable_ack_rate_compensation,
    {
        BrutalConfig(BrutalConfigCore::default())
    }
}

impl BrutalConfig {
    /// The default configuration, but for bandwidth, window gain and compensation.
    pub fn new(
        default_bandwidth_bps: u64,
        cwnd_gain: Double,
        enable_ack_rate_compensation: bool,
    ) -> (r: BrutalConfig)
        ensures
            r.0.cwnd_gain == cwnd_gain,
            r.0.enable_ack_rate_compensation == enable_ack_rate_compensation,
            (BrutalConfigCore {
                cwnd_gain: Double { bits: DEFAULT_CWND_GAIN_BITS },
                enable_ack_rate_compensation: false,
                ..r.0
            }).is_default_for(default_bandwidth_bps),
            r.0.default_bandwidth_bps == default_bandwidth_bps,
            r.0.initial_rtt@ == 100_000_000,
            r.0.min_window == 16_384,
            r.0.min_ack_rate.bits == 0x3fe9_9999_9999_999a,
            r.0.min_sample_count == 50,
    {
        let mut inner = BrutalConfigCore::new(default_bandwidth_bps);
        inner.cwnd_gain = cwnd_gain;
        inner.enable_ack_rate_compensation = enable_ack_rate_compensation;
        BrutalConfig(inner)
    }

    /// The settings.
    pub fn inner(&self) -> (r: &BrutalConfigCore)
        ensures
            *r == self.0,
    {
        &self.0
    }

    /// The settings, to be changed.
    pub fn inner_mut(&mut self) -> (r: &mut BrutalConfigCore)
        ensures
            *r == old(self).0,
            final(self).0 == *final(r),
    {
        &mut self.0
    }

    /// Starts a controller for a connection to `remote` and registers it, in place of the
    /// controller that was registered for that address.
    pub fn build<P: Fn(WindowInputs) -> u64>(
        &self,
        now: Moment,
        current_mtu: u16,
        remote: RemoteAddr,
        registry: &mut Registry,
        product: &P,
    ) -> (r: Brutal)
        requires
            forall|inputs: WindowInputs| call_requires(*product, (inputs,)),
        ensures
            started(*product, self.0, now, current_mtu, r.state()),
            r.remote() == remote,
            !old(registry)@.alive(r.control()),
            r.control() <= old(registry)@.blocks.len(),
            final(registry)@ == old(registry)@.registered(remote, r.control()),
            r.listens(final(registry)@),
    {
        let control: usize = registry.register_controller(remote);
        Brutal { core: BrutalCore::new(self.0.clone(), now, current_mtu, product), remote, control }
    }
}

/// The state after `before` took over `param`, and whether it did.
pub open spec fn applied<P: Fn(WindowInputs) -> u64>(
    product: P,
    before: BrutalCore,
    param: CongestionParameter,
    after: BrutalCore,
    result: Result<(), ConfigError>,
) -> bool {
    match param {
        CongestionParameter::PeerBandwidthHint(bps) => {
            &&& result == Ok::<(), ConfigError>(())
            &&& refreshed(
                product,
                BrutalCore { bandwidth_hint_bps: Some(bps), ..before },
                after,
            )
        },
        CongestionParameter::CwndGain(gain) => if gain.at_most(Double { bits: 0 }) {
            &&& result == Err::<(), ConfigError>(ConfigError::OutOfBounds)
            &&& after == before
        } else {
            &&& result == Ok::<(), ConfigError>(())
            &&& refreshed(
                product,
                BrutalCore {
                    config: BrutalConfigCore { cwnd_gain: gain, ..before.config },
                    ..before
                },
                after,
            )
        },
        CongestionParameter::AckCompensation(enable) => {
            &&& result == Ok::<(), ConfigError>(())
            &&& refreshed(
                product,
                BrutalCore {
                    config: BrutalConfigCore {
                        enable_ack_rate_compensation: enable,
                        ..before.config
                    },
                    ..before
                },
                after,
            )
        },
    }
}

/// The state after `before` took over a parameter that may wait, and whether it did.
/// Nothing happens where none waits.
pub open spec fn applied_if_any<P: Fn(WindowInputs) -> u64>(
    product: P,
    before: BrutalCore,
    param: Option<CongestionParameter>,
    after: BrutalCore,
    result: Result<(), ConfigError>,
) -> bool {
    match param {
        Some(param) => applied(product, before, param, after, result),
        None => after == before && result == Ok::<(), ConfigError>(()),
    }
}

/// The bandwidth hint that waits, as a parameter.
pub open spec fn waiting_hint(control: BrutalControl) -> Option<CongestionParameter> {
    match control.peer_bandwidth_hint {
        Some(v) => Some(CongestionParameter::PeerBandwidthHint(v)),
        None => None,
    }
}

/// The window gain that waits, as a parameter.
pub open spec fn waiting_gain(control: BrutalControl) -> Option<CongestionParameter> {
    match control.cwnd_gain {
        Some(v) => Some(CongestionParameter::CwndGain(v)),
        None => None,
    }
}

/// The compensation switch that waits, as a parameter.
pub open spec fn waiting_switch(control: BrutalControl) -> Option<CongestionParameter> {
    match control.ack_compensation {
        Some(v) => Some(CongestionParameter::AckCompensation(v)),
        None => None,
    }
}

/// Whether a window gain waits that will be refused.
pub open spec fn gain_refused(control: BrutalControl) -> bool {
    control.cwnd_gain matches Some(gain) && gain.at_most(Double { bits: 0 })
}

/// What still waits after a controller took over what waited: the compensation switch where
/// the window gain before it was refused, else nothing.
pub open spec fn drained(control: BrutalControl) -> BrutalControl {
    if gain_refused(control) {
        BrutalControl { ack_compensation: control.ack_compensation, ..BrutalControl::idle() }
    } else {
        BrutalControl::idle()
    }
}

/// The state after `before` took over what waits in `control`: first the bandwidth hint,
/// then the window gain, then, unless the gain was refused, the compensation switch.
pub open spec fn caught_up<P: Fn(WindowInputs) -> u64>(
    product: P,
    control: BrutalControl,
    before: BrutalCore,
    after: BrutalCore,
) -> bool {
    if gain_refused(control) {
        applied_if_any(product, before, waiting_hint(control), after, Ok(()))
    } else {
        exists|hint_set: BrutalCore, gain_set: BrutalCore|
            {
                &&& #[trigger] applied_if_any(
                    product,
                    before,
                    waiting_hint(control),
                    hint_set,
                    Ok(()),
                )
                &&& #[trigger] applied_if_any(
                    product,
                    hint_set,
                    waiting_gain(control),
                    gain_set,
                    Ok(()),
                )
                &&& applied_if_any(product, gain_set, waiting_switch(control), after, Ok(()))
            }
    }
}

/// A controller of one connection.
#[derive(Debug)]
pub struct Brutal {
    core: BrutalCore,
    remote: RemoteAddr,
    control: usize,
}

impl Brutal {
    /// The congestion state.
    pub closed spec fn state(&self) -> BrutalCore {
        self.core
    }

    /// The address of the peer.
    pub closed spec fn remote(&self) -> RemoteAddr {
        self.remote
    }

    /// Where its parameters wait.
    pub closed spec fn control(&self) -> usize {
        self.control
    }

    /// Whether `registry` has the block that its parameters wait in.
    pub open spec fn listens(&self, registry: RegistryView) -> bool {
        registry.holds(self.control(), self.remote())
    }

    /// The parameters that wait for it.
    pub open spec fn waiting(&self, registry: RegistryView) -> BrutalControl {
        registry.block(self.control()).control
    }

    /// Takes over a parameter.
    pub fn apply_parameter<P: Fn(WindowInputs) -> u64>(
        &mut self,
        param: CongestionParameter,
        product: &P,
    ) -> (r: Result<(), ConfigError>)
        requires
            forall|inputs: WindowInputs| call_requires(*product, (inputs,)),
        ensures
            applied(*product, old(self).state(), param, final(self).state(), r),
            final(self).remote() == old(self).remote(),
            final(self).control() == old(self).control(),
    {
        match param {
            CongestionParameter::PeerBandwidthHint(bps) => {
                self.core.set_peer_bandwidth_hint(Some(bps), product);
            },
            CongestionParameter::CwndGain(gain) => {
                if gain.le(Double::zero()) {
                    return Err(ConfigError::OutOfBounds);
                }
                self.core.config.cwnd_gain = gain;
                self.core.refresh_cwnd(product);
            },
            CongestionParameter::AckCompensation(enable) => {
                self.core.config.enable_ack_rate_compensation = enable;
                self.core.refresh_cwnd(product);
            },
        }
        Ok(())
    }

    /// Takes over the parameters that wait, up to the first that is refused.
    pub fn apply_pending_parameters<P: Fn(WindowInputs) -> u64>(
        &mut self,
        registry: &mut Registry,
        product: &P,
    ) -> (r: Result<(), ConfigError>)
        requires
            old(self).listens(old(registry)@),
            forall|inputs: WindowInputs| call_requires(*product, (inputs,)),
        ensures
            caught_up(
                *product,
                old(self).waiting(old(registry)@),
                old(self).state(),
                final(self).state(),
            ),
            final(self).remote() == old(self).remote(),
            final(self).control() == old(self).control(),
            final(registry)@ == old(registry)@.with_control(
                old(self).control(),
                drained(old(self).waiting(old(registry)@)),
            ),
            r == if gain_refused(old(self).waiting(old(registry)@)) {
                Err::<(), ConfigError>(ConfigError::OutOfBounds)
            } else {
                Ok(())
            },
    {
        let control: &mut BrutalControl = registry.control_mut(self.control);
        if let Some(v) = control.take_peer_bandwidth_hint() {
            match self.apply_parameter(CongestionParameter::PeerBandwidthHint(v), product) {
                Ok(_) => {},
                Err(e) => {
                    return Err(e);
                },
            }
        }
        let ghost hint_set = self.core;
        if let Some(v) = control.take_cwnd_gain() {
            match self.apply_parameter(CongestionParameter::CwndGain(v), product) {
                Ok(_) => {},
                Err(e) => {
                    return Err(e);
                },
            }
        }
        let ghost gain_set = self.core;
        if let Some(v) = control.take_ack_compensation() {
            match self.apply_parameter(CongestionParameter::AckCompensation(v), product) {
                Ok(_) => {},
                Err(e) => {
                    return Err(e);
                },
            }
        }
        assert(applied_if_any(
            *product,
            old(self).core,
            waiting_hint(old(self).waiting(old(registry)@)),
            hint_set,
            Ok(()),
        ));
        assert(applied_if_any(
            *product,
            hint_set,
            waiting_gain(old(self).waiting(old(registry)@)),
            gain_set,
            Ok(()),
        ));
        Ok(())
    }

    /// Whether `registry` has the block that its parameters wait in.
    pub fn is_listening(&self, registry: &Registry) -> (r: bool)
        ensures
            r == self.listens(registry@),
    {
        registry.is_held(self.control, self.remote)
    }

    /// The congestion state, to be looked at.
    pub fn inner(&self) -> (r: &BrutalCore)
        ensures
            *r == self.state(),
    {
        &self.core
    }

    /// The parameters that wait for it, to be looked at.
    pub fn pending<'a>(&self, registry: &'a Registry) -> (r: &'a BrutalControl)
        requires
            self.listens(registry@),
        ensures
            *r == self.waiting(registry@),
    {
        registry.control(self.control)
    }

    /// The window to start with.
    pub fn initial_window<P: Fn(WindowInputs) -> u64>(&self, product: &P) -> (r: u64)
        requires
            forall|inputs: WindowInputs| call_requires(*product, (inputs,)),
        ensures
            called_for(*product, self.state(), r),
    {
        self.core.initial_window(product)
    }

    /// The window as last computed.
    pub fn window(&self) -> (r: u64)
        ensures
            r == self.state().cwnd,
    {
        self.core.window_cached()
    }

    /// Takes over the parameters that wait, then counts bytes as sent.
    pub fn on_sent<P: Fn(WindowInputs) -> u64>(
        &mut self,
        bytes: u64,
        registry: &mut Registry,
        product: &P,
    )
        requires
            old(self).listens(old(registry)@),
            forall|inputs: WindowInputs| call_requires(*product, (inputs,)),
        ensures
            exists|ready: BrutalCore| #[trigger]
                caught_up(
                    *product,
                    old(self).waiting(old(registry)@),
                    old(self).state(),
                    ready,
                ) && final(self).state() == sent(ready, bytes),
            final(self).remote() == old(self).remote(),
            final(self).control() == old(self).control(),
            final(registry)@ == old(registry)@.with_control(
                old(self).control(),
                drained(old(self).waiting(old(registry)@)),
            ),
    {
        let _ = self.apply_pending_parameters(registry, product);
        self.core.on_sent(bytes);
    }

    /// Whether the packets of `bytes` can be counted as acknowledged.
    pub fn ack_fits(&self, bytes: u64) -> (r: bool)
        ensures
            r == self.state().has_ack_room(bytes),
    {
        self.core.ack_fits(bytes)
    }

    /// Takes over the parameters that wait, then counts bytes as acknowledged.
    pub fn on_ack<P: Fn(WindowInputs) -> u64>(
        &mut self,
        bytes: u64,
        rtt: Span,
        registry: &mut Registry,
        product: &P,
    )
        requires
            old(self).listens(old(registry)@),
            old(self).state().has_ack_room(bytes),
            forall|inputs: WindowInputs| call_requires(*product, (inputs,)),
        ensures
            exists|ready: BrutalCore| #[trigger]
                caught_up(
                    *product,
                    old(self).waiting(old(registry)@),
                    old(self).state(),
                    ready,
                ) && final(self).state() == acked(ready, bytes, rtt),
            final(self).remote() == old(self).remote(),
            final(self).control() == old(self).control(),
            final(registry)@ == old(registry)@.with_control(
                old(self).control(),
                drained(old(self).waiting(old(registry)@)),
            ),
    {
        let _ = self.apply_pending_parameters(registry, product);
        proof {
            law_parameters_touch_nothing_else(
                *product,
                old(self).waiting(old(registry)@),
                old(self).core,
                self.core,
            );
        }
        self.core.on_ack_bytes(bytes, rtt);
    }

    /// Whether the batch can be closed at `now` with every count staying in range.
    pub fn batch_fits(&self, now: Moment) -> (r: bool)
        ensures
            r == self.state().has_batch_room(now),
    {
        self.core.batch_fits(now)
    }

    /// Takes over the parameters that wait, then closes a batch of acknowledgements.
    pub fn on_end_acks<R: Fn(u64, u64) -> Double, P: Fn(WindowInputs) -> u64>(
        &mut self,
        now: Moment,
        registry: &mut Registry,
        ratio: &R,
        product: &P,
    )
        requires
            old(self).listens(old(registry)@),
            old(self).state().has_batch_room(now),
            forall|acks: u64, total: u64| call_requires(*ratio, (acks, total)),
            forall|inputs: WindowInputs| call_requires(*product, (inputs,)),
        ensures
            exists|ready: BrutalCore| #[trigger]
                caught_up(
                    *product,
                    old(self).waiting(old(registry)@),
                    old(self).state(),
                    ready,
                ) && batch_closed(*ratio, *product, ready, now, final(self).state()),
            final(self).remote() == old(self).remote(),
            final(self).control() == old(self).control(),
            final(registry)@ == old(registry)@.with_control(
                old(self).control(),
                drained(old(self).waiting(old(registry)@)),
            ),
    {
        let _ = self.apply_pending_parameters(registry, product);
        proof {
            law_parameters_touch_nothing_else(
                *product,
                old(self).waiting(old(registry)@),
                old(self).core,
                self.core,
            );
        }
        self.core.on_end_acks(now, ratio, product);
    }

    /// Whether the packets of `lost_bytes` can be counted as lost.
    pub fn loss_fits(&self, lost_bytes: u64) -> (r: bool)
        ensures
            r == self.state().has_loss_room(lost_bytes),
    {
        self.core.loss_fits(lost_bytes)
    }

    /// Takes over the parameters that wait, then counts bytes as lost.
    pub fn on_congestion_event<P: Fn(WindowInputs) -> u64>(
        &mut self,
        lost_bytes: u64,
        registry: &mut Registry,
        product: &P,
    )
        requires
            old(self).listens(old(registry)@),
            old(self).state().has_loss_room(lost_bytes),
            forall|inputs: WindowInputs| call_requires(*product, (inputs,)),
        ensures
            exists|ready: BrutalCore| #[trigger]
                caught_up(
                    *product,
                    old(self).waiting(old(registry)@),
                    old(self).state(),
                    ready,
                ) && final(self).state() == lost(ready, lost_bytes),
            final(self).remote() == old(self).remote(),
            final(self).control() == old(self).control(),
            final(registry)@ == old(registry)@.with_control(
                old(self).control(),
                drained(old(self).waiting(old(registry)@)),
            ),
    {
        let _ = self.apply_pending_parameters(registry, product);
        proof {
            law_parameters_touch_nothing_else(
                *product,
                old(self).waiting(old(registry)@),
                old(self).core,
                self.core,
            );
        }
        self.core.on_loss_bytes(lost_bytes);
    }

    /// Takes over the parameters that wait, then a new packet size.
    pub fn on_mtu_update<P: Fn(WindowInputs) -> u64>(
        &mut self,
        new_mtu: u16,
        registry: &mut Registry,
        product: &P,
    )
        requires
            old(self).listens(old(registry)@),
            forall|inputs: WindowInputs| call_requires(*product, (inputs,)),
        ensures
            exists|ready: BrutalCore| #[trigger]
                caught_up(
                    *product,
                    old(self).waiting(old(registry)@),
                    old(self).state(),
                    ready,
                ) && refreshed(
                    *product,
                    (BrutalCore { mtu: new_mtu as u64, ..ready }),
                    final(self).state(),
                ),
            final(self).remote() == old(self).remote(),
            final(self).control() == old(self).control(),
            final(registry)@ == old(registry)@.with_control(
                old(self).control(),
                drained(old(self).waiting(old(registry)@)),
            ),
    {
        let _ = self.apply_pending_parameters(registry, product);
        self.core.on_mtu_update(new_mtu, product);
    }

    /// Whether `registry` has room for one more controller that shares its parameters.
    pub fn can_clone(&self, registry: &Registry) -> (r: bool)
        ensures
            r == (self.listens(registry@) && registry@.block(self.control()).holders
                < u64::MAX),
    {
        self.is_listening(registry) && registry.can_share(self.control)
    }

    /// A second controller in the same state, which shares the parameters that wait.
    pub fn clone_box(&self, registry: &mut Registry) -> (r: Brutal)
        requires
            self.listens(old(registry)@),
            old(registry)@.block(self.control()).holders < u64::MAX,
        ensures
            r.state() == self.state(),
            r.remote() == self.remote(),
            r.control() == self.control(),
            final(registry)@ == old(registry)@.shared(self.control()),
            r.listens(final(registry)@),
    {
        registry.share(self.control);
        Brutal { core: self.core.clone(), remote: self.remote, control: self.control }
    }

    /// Ends a controller: its address is no longer registered, even where another controller
    /// has been registered for it since.
    /// A registry that does not have its block only strikes out the address.
    pub fn drop(self, registry: &mut Registry)
        ensures
            final(registry)@ == if self.listens(old(registry)@) {
                old(registry)@.released(self.control(), self.remote())
            } else {
                old(registry)@.struck_out(self.remote())
            },
    {
        if self.is_listening(registry) {
            registry.release(self.control, self.remote);
        } else {
            registry.strike_out(self.remote);
        }
    }
}

/// Has a parameter wait for the controller registered for `remote`. Refused where none is.
pub fn brutal_set_parameter_by_remote(
    registry: &mut Registry,
    remote: RemoteAddr,
    param: CongestionParameter,
) -> (r: Result<(), ConfigError>)
    ensures
        final(registry)@ == old(registry)@.parameter_set(remote, param),
        r == if old(registry)@.reachable(remote) {
            Ok::<(), ConfigError>(())
        } else {
            Err(ConfigError::OutOfBounds)
        },
{
    registry.set_parameter(remote, param)
}

/// Taking over parameters changes bandwidth hint, window gain, compensation switch and
/// window, and nothing else.
pub proof fn law_parameters_touch_nothing_else<P: Fn(WindowInputs) -> u64>(
    product: P,
    control: BrutalControl,
    before: BrutalCore,
    after: BrutalCore,
)
    requires
        caught_up(product, control, before, after),
    ensures
        after == (BrutalCore {
            config: BrutalConfigCore {
                cwnd_gain: after.config.cwnd_gain,
                enable_ack_rate_compensation: after.config.enable_ack_rate_compensation,
                ..before.config
            },
            bandwidth_hint_bps: after.bandwidth_hint_bps,
            cwnd: after.cwnd,
            ..before
        }),
{
}

} // verus!
