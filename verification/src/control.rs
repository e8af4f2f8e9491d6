//! Parameters that wait for a controller to take them over.
use vstd::prelude::*;

use crate::double::Double;

verus! {

/// A parameter that can be set while a connection is up.
#[derive(Clone, Copy, Debug)]
pub enum CongestionParameter {
    /// Bandwidth that the peer asks for, in bits per second.
    PeerBandwidthHint(u64),
    /// Factor on the window that the target rate calls for.
    CwndGain(Double),
    /// Whether the window makes up for lost packets.
    AckCompensation(bool),
}

/// Why a parameter was refused.
#[derive(Clone, Copy, Debug, PartialEq, Eq, Structural)]
pub enum ConfigError {
    /// The value is out of range, or nobody listens for it.
    OutOfBounds,
}

/// The parameters that wait, at most one of each kind.
#[derive(Debug)]
pub struct BrutalControl {
    pub peer_bandwidth_hint: Option<u64>,
    pub cwnd_gain: Option<Double>,
    pub ack_compensation: Option<bool>,
}

impl BrutalControl {
    /// With nothing waiting.
    pub open spec fn idle() -> BrutalControl {
        BrutalControl { peer_bandwidth_hint: None, cwnd_gain: None, ack_compensation: None }
    }

    /// With `param` waiting, in place of an earlier one of its kind.
    pub open spec fn with(self, param: CongestionParameter) -> BrutalControl {
        match param {
            CongestionParameter::PeerBandwidthHint(v) => BrutalControl {
                peer_bandwidth_hint: Some(v),
                ..self
            },
            CongestionParameter::CwndGain(v) => BrutalControl { cwnd_gain: Some(v), ..self },
            CongestionParameter::AckCompensation(v) => BrutalControl {
                ack_compensation: Some(v),
                ..self
            },
        }
    }

    /// Nothing waits at first.
    pub fn new() -> (r: BrutalControl)
        ensures
            r == BrutalControl::idle(),
    {
        BrutalControl { peer_bandwidth_hint: None, cwnd_gain: None, ack_compensation: None }
    }

    /// Hands out the bandwidth hint, if one waits.
    pub fn take_peer_bandwidth_hint(&mut self) -> (r: Option<u64>)
        ensures
            r == old(self).peer_bandwidth_hint,
            *final(self) == (BrutalControl { peer_bandwidth_hint: None, ..*old(self) }),
    {
        self.peer_bandwidth_hint.take()
    }

    /// Hands out the window gain, if one waits.
    pub fn take_cwnd_gain(&mut self) -> (r: Option<Double>)
        ensures
            r == old(self).cwnd_gain,
            *final(self) == (BrutalControl { cwnd_gain: None, ..*old(self) }),
    {
        self.cwnd_gain.take()
    }

    /// Hands out the compensation switch, if one waits.
    pub fn take_ack_compensation(&mut self) -> (r: Option<bool>)
        ensures
            r == old(self).ack_compensation,
            *final(self) == (BrutalControl { ack_compensation: None, ..*old(self) }),
    {
        self.ack_compensation.take()
    }

    /// Has a parameter wait, in place of an earlier one of its kind.
    pub fn store_parameter(&mut self, param: CongestionParameter)
        ensures
            *final(self) == old(self).with(param),
    {
        match param {
            CongestionParameter::PeerBandwidthHint(v) => {
                self.peer_bandwidth_hint = Some(v);
            },
            CongestionParameter::CwndGain(v) => {
                self.cwnd_gain = Some(v);
            },
            CongestionParameter::AckCompensation(v) => {
                self.ack_compensation = Some(v);
            },
        }
    }
}

/// Of two parameters of one kind only the later waits.
pub proof fn law_last_of_a_kind_waits(
    control: BrutalControl,
    first: CongestionParameter,
    second: CongestionParameter,
)
    requires
        first is PeerBandwidthHint <==> second is PeerBandwidthHint,
        first is CwndGain <==> second is CwndGain,
    ensures
        control.with(first).with(second) == control.with(second),
{
}

/// Parameters of different kinds do not get in each other's way.
pub proof fn law_kinds_wait_side_by_side(
    control: BrutalControl,
    first: CongestionParameter,
    second: CongestionParameter,
)
    requires
        !(first is PeerBandwidthHint && second is PeerBandwidthHint),
        !(first is CwndGain && second is CwndGain),
        !(first is AckCompensation && second is AckCompensation),
    ensures
        control.with(first).with(second) == control.with(second).with(first),
{
}

/// A parameter waits as it was set, and the others go on waiting as they were.
pub proof fn law_parameters_wait_as_set(control: BrutalControl, bps: u64, gain: Double, on: bool)
    ensures
        control.with(CongestionParameter::PeerBandwidthHint(bps)) == (BrutalControl {
            peer_bandwidth_hint: Some(bps),
            cwnd_gain: control.cwnd_gain,
            ack_compensation: control.ack_compensation,
        }),
        control.with(CongestionParameter::CwndGain(gain)) == (BrutalControl {
            peer_bandwidth_hint: control.peer_bandwidth_hint,
            cwnd_gain: Some(gain),
            ack_compensation: control.ack_compensation,
        }),
        control.with(CongestionParameter::AckCompensation(on)) == (BrutalControl {
            peer_bandwidth_hint: control.peer_bandwidth_hint,
            cwnd_gain: control.cwnd_gain,
            ack_compensation: Some(on),
        }),
{
}

/// At first nothing waits.
pub proof fn law_nothing_waits_at_first()
    ensures
        BrutalControl::idle().peer_bandwidth_hint is None,
        BrutalControl::idle().cwnd_gain is None,
        BrutalControl::idle().ack_compensation is None,
{
}

} // verus!
