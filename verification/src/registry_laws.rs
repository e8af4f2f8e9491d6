//! What each step of the registry does, told by the entries and blocks before and after it.
use vstd::prelude::*;

use crate::control::{BrutalControl, CongestionParameter};
use crate::controller::Brutal;
use crate::registry::{
    law_keys_tell_addresses_apart, ControlBlock, RegistryView, RemoteAddr, RemoteKey,
};

verus! {

/// Whether `after` leads every address but the one of `key` to the block that `before` led
/// it to, and no address more or less.
pub open spec fn other_entries_kept(
    before: RegistryView,
    after: RegistryView,
    key: RemoteKey,
) -> bool {
    forall|other: RemoteKey|
        other != key ==> {
            &&& #[trigger] after.entries.contains_key(other) <==> before.entries.contains_key(
                other,
            )
            &&& before.entries.contains_key(other) ==> after.entries[other]
                == before.entries[other]
        }
}

/// Whether `after` has every block of `before` as it was, but for the one at `id`.
pub open spec fn other_blocks_kept(before: RegistryView, after: RegistryView, id: usize) -> bool {
    forall|other: int|
        0 <= other < before.blocks.len() && other != id ==> #[trigger] after.blocks[other]
            == before.blocks[other]
}

/// A block is in use while controllers hold it, and belongs to the address it was made for.
pub proof fn law_blocks_in_use(registry: RegistryView, id: usize, remote: RemoteAddr)
    ensures
        registry.alive(id) <==> id < registry.blocks.len() && registry.blocks[id as int].holders
            >= 1,
        registry.holds(id, remote) <==> id < registry.blocks.len()
            && registry.blocks[id as int].holders >= 1 && registry.blocks[id as int].remote
            == remote,
        registry.block(id) == registry.blocks[id as int],
{
}

/// A parameter for an address finds a block exactly where the address is registered and the
/// block it leads to is held.
pub proof fn law_reachable_addresses(registry: RegistryView, remote: RemoteAddr)
    ensures
        registry.reachable(remote) <==> {
            &&& registry.entries.contains_key(remote.as_key())
            &&& registry.entries[remote.as_key()] < registry.blocks.len()
            &&& registry.blocks[registry.entries[remote.as_key()] as int].holders >= 1
        },
{
}

/// Registering a controller leads its address to its block, which is held once with nothing
/// waiting, and leaves every other address and every other block as it was.
pub proof fn law_register_leaves_the_others(
    registry: RegistryView,
    remote: RemoteAddr,
    id: usize,
)
    requires
        id <= registry.blocks.len(),
    ensures
        other_entries_kept(registry, registry.registered(remote, id), remote.as_key()),
        registry.registered(remote, id).entries.contains_key(remote.as_key()),
        registry.registered(remote, id).entries[remote.as_key()] == id,
        other_blocks_kept(registry, registry.registered(remote, id), id),
        registry.registered(remote, id).blocks.len() == if id == registry.blocks.len() {
            registry.blocks.len() + 1
        } else {
            registry.blocks.len()
        },
        registry.registered(remote, id).blocks[id as int] == (ControlBlock {
            remote,
            holders: 1,
            control: BrutalControl {
                peer_bandwidth_hint: None,
                cwnd_gain: None,
                ack_compensation: None,
            },
        }),
{
}

/// A parameter set for one address before another is registered is found after it: the
/// address leads where it led.
pub proof fn law_register_keeps_addresses_reachable(
    registry: RegistryView,
    remote: RemoteAddr,
    id: usize,
    other: RemoteAddr,
)
    requires
        registry.wf(),
        id <= registry.blocks.len(),
        !registry.alive(id),
        other != remote,
    ensures
        registry.registered(remote, id).reachable(other) <==> registry.reachable(other),
        registry.reachable(other) ==> {
            &&& registry.registered(remote, id).entries[other.as_key()]
                == registry.entries[other.as_key()]
            &&& registry.registered(remote, id).blocks[registry.entries[other.as_key()] as int]
                == registry.blocks[registry.entries[other.as_key()] as int]
        },
{
    law_keys_tell_addresses_apart(remote, other);
}

/// A key holds every part of the address, and addresses of the two families never share one.
pub proof fn law_keys_hold_the_address(
    ip: u32,
    ip6: u128,
    port: u16,
    flowinfo: u32,
    scope_id: u32,
)
    ensures
        (RemoteAddr::V4 { ip, port }).as_key().0 != (RemoteAddr::V6 {
            ip6,
            port,
            flowinfo,
            scope_id,
        }).as_key().0,
        (RemoteAddr::V4 { ip, port }).as_key().1 == ip,
        (RemoteAddr::V4 { ip, port }).as_key().2 == port,
        (RemoteAddr::V6 { ip6, port, flowinfo, scope_id }).as_key().1 == ip6,
        (RemoteAddr::V6 { ip6, port, flowinfo, scope_id }).as_key().2 == port,
        (RemoteAddr::V6 { ip6, port, flowinfo, scope_id }).as_key().3 == flowinfo,
        (RemoteAddr::V6 { ip6, port, flowinfo, scope_id }).as_key().4 == scope_id,
{
}

/// Sharing a block counts one more holder and changes nothing else.
pub proof fn law_share_counts_one_more(registry: RegistryView, id: usize)
    requires
        id < registry.blocks.len(),
        registry.blocks[id as int].holders < 0xffff_ffff_ffff_ffff,
    ensures
        registry.shared(id).entries == registry.entries,
        registry.shared(id).blocks.len() == registry.blocks.len(),
        other_blocks_kept(registry, registry.shared(id), id),
        registry.shared(id).blocks[id as int].holders - 1 == registry.blocks[id as int].holders,
        registry.shared(id).blocks[id as int].remote == registry.blocks[id as int].remote,
        registry.shared(id).blocks[id as int].control == registry.blocks[id as int].control,
{
}

/// Letting go of a block strikes out the one address, counts one holder less, and changes
/// nothing else: what waits in the block goes on waiting.
pub proof fn law_release_counts_one_less(registry: RegistryView, id: usize, remote: RemoteAddr)
    requires
        id < registry.blocks.len(),
        registry.blocks[id as int].holders >= 1,
    ensures
        !registry.released(id, remote).entries.contains_key(remote.as_key()),
        other_entries_kept(registry, registry.released(id, remote), remote.as_key()),
        registry.released(id, remote).blocks.len() == registry.blocks.len(),
        other_blocks_kept(registry, registry.released(id, remote), id),
        registry.released(id, remote).blocks[id as int].holders + 1
            == registry.blocks[id as int].holders,
        registry.released(id, remote).blocks[id as int].remote
            == registry.blocks[id as int].remote,
        registry.released(id, remote).blocks[id as int].control
            == registry.blocks[id as int].control,
{
}

/// Striking out an address strikes out that one alone and touches no block.
pub proof fn law_strike_out_takes_one_address(registry: RegistryView, remote: RemoteAddr)
    ensures
        !registry.struck_out(remote).entries.contains_key(remote.as_key()),
        other_entries_kept(registry, registry.struck_out(remote), remote.as_key()),
        registry.struck_out(remote).blocks == registry.blocks,
{
}

/// Changing what waits in a block changes nothing else.
pub proof fn law_with_control_touches_one_block(
    registry: RegistryView,
    id: usize,
    control: BrutalControl,
)
    requires
        id < registry.blocks.len(),
    ensures
        registry.with_control(id, control).entries == registry.entries,
        registry.with_control(id, control).blocks.len() == registry.blocks.len(),
        other_blocks_kept(registry, registry.with_control(id, control), id),
        registry.with_control(id, control).blocks[id as int] == (ControlBlock {
            remote: registry.blocks[id as int].remote,
            holders: registry.blocks[id as int].holders,
            control,
        }),
{
}

/// A parameter set for an address that leads to a held block waits there, as it was set,
/// beside what waits there of other kinds. Nothing else changes.
pub proof fn law_set_parameter_waits(
    registry: RegistryView,
    remote: RemoteAddr,
    id: usize,
    param: CongestionParameter,
)
    requires
        registry.entries.contains_key(remote.as_key()),
        registry.entries[remote.as_key()] == id,
        id < registry.blocks.len(),
        registry.blocks[id as int].holders >= 1,
    ensures
        registry.parameter_set(remote, param).entries == registry.entries,
        registry.parameter_set(remote, param).blocks.len() == registry.blocks.len(),
        other_blocks_kept(registry, registry.parameter_set(remote, param), id),
        registry.parameter_set(remote, param).blocks[id as int].remote
            == registry.blocks[id as int].remote,
        registry.parameter_set(remote, param).blocks[id as int].holders
            == registry.blocks[id as int].holders,
        waits_as_set(
            registry.blocks[id as int].control,
            registry.parameter_set(remote, param).blocks[id as int].control,
            param,
        ),
{
}

/// Whether `after` is `before` with `param` waiting as it was set.
pub open spec fn waits_as_set(
    before: BrutalControl,
    after: BrutalControl,
    param: CongestionParameter,
) -> bool {
    &&& after.peer_bandwidth_hint == (match param {
        CongestionParameter::PeerBandwidthHint(bps) => Some(bps),
        _ => before.peer_bandwidth_hint,
    })
    &&& after.cwnd_gain == (match param {
        CongestionParameter::CwndGain(gain) => Some(gain),
        _ => before.cwnd_gain,
    })
    &&& after.ack_compensation == (match param {
        CongestionParameter::AckCompensation(on) => Some(on),
        _ => before.ack_compensation,
    })
}

/// A parameter set for an address that leads to no held block strikes out that address alone
/// and touches no block.
pub proof fn law_refused_parameter_leaves_the_blocks(
    registry: RegistryView,
    remote: RemoteAddr,
    param: CongestionParameter,
)
    requires
        !registry.entries.contains_key(remote.as_key()) || {
            ||| registry.entries[remote.as_key()] >= registry.blocks.len()
            ||| registry.blocks[registry.entries[remote.as_key()] as int].holders == 0
        },
    ensures
        !registry.parameter_set(remote, param).entries.contains_key(remote.as_key()),
        other_entries_kept(registry, registry.parameter_set(remote, param), remote.as_key()),
        registry.parameter_set(remote, param).blocks == registry.blocks,
{
}

/// A controller listens where its block is held for its address, and what waits for it is
/// what waits in that block.
pub proof fn law_controllers_listen_at_their_block(brutal: Brutal, registry: RegistryView)
    ensures
        brutal.listens(registry) <==> {
            &&& brutal.control() < registry.blocks.len()
            &&& registry.blocks[brutal.control() as int].holders >= 1
            &&& registry.blocks[brutal.control() as int].remote == brutal.remote()
        },
        brutal.waiting(registry) == registry.blocks[brutal.control() as int].control,
{
}

} // verus!
