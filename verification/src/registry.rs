//! Which controller listens for parameters of which remote address.
use dashmap::DashMap;
use vstd::multiset::Multiset;
use vstd::prelude::*;

use crate::control::{BrutalControl, ConfigError, CongestionParameter};

verus! {

/// `dashmap::DashMap`, the hash map that the entries are kept in. Nothing is said of what is
/// inside one but through `entries_of`.
#[verifier::external_type_specification]
#[verifier::external_body]
#[verifier::reject_recursive_types(K)]
#[verifier::reject_recursive_types(V)]
#[verifier::reject_recursive_types(S)]
pub struct ExDashMap<K, V, S>(dashmap::DashMap<K, V, S>);

/// A remote address as a map key: family, address, port, flow information and scope.
pub type RemoteKey = (u8, u128, u16, u32, u32);

/// The entries of a map: the value that each key is mapped to. A map is changed through an
/// exclusive borrow only, so nobody else comes between one call and the next.
pub uninterp spec fn entries_of(map: DashMap<RemoteKey, usize>) -> Map<RemoteKey, usize>;

/// `DashMap::new`: gives a map without entries.
#[verifier::external_body]
fn map_new() -> (r: DashMap<RemoteKey, usize>)
    ensures
        (entries_of(r) == Map::<RemoteKey, usize>::empty()),
{
    DashMap::new()
}

/// `DashMap::insert`: maps `key` to `value`, leaves the other keys alone, and gives what
/// `key` was mapped to before.
#[verifier::external_body]
fn map_insert(map: &mut DashMap<RemoteKey, usize>, key: RemoteKey, value: usize) -> (r: Option<
    usize,
>)
    ensures
        entries_of(*final(map)) == entries_of(*old(map)).insert(key, value),
        r == entries_of(*old(map)).get(key),
{
    map.insert(key, value)
}

/// `DashMap::get`: gives what `key` is mapped to and changes nothing. No reference into the
/// map is left over.
#[verifier::external_body]
fn map_get(map: &mut DashMap<RemoteKey, usize>, key: &RemoteKey) -> (r: Option<usize>)
    ensures
        entries_of(*final(map)) == entries_of(*old(map)),
        r == entries_of(*old(map)).get(*key),
{
    map.get(key).map(|entry| *entry.value())
}

/// `DashMap::remove`: takes `key` out, leaves the other keys alone, and gives the key and
/// what it was mapped to, if it was there.
#[verifier::external_body]
fn map_remove(map: &mut DashMap<RemoteKey, usize>, key: &RemoteKey) -> (r: Option<
    (RemoteKey, usize),
>)
    ensures
        entries_of(*final(map)) == entries_of(*old(map)).remove(*key),
        r == if entries_of(*old(map)).contains_key(*key) {
            Some((*key, entries_of(*old(map))[*key]))
        } else {
            None
        },
{
    map.remove(key)
}

/// An internet address and port.
#[derive(Clone, Copy, Debug, PartialEq, Eq, Structural)]
pub enum RemoteAddr {
    V4 { ip: u32, port: u16 },
    V6 { ip6: u128, port: u16, flowinfo: u32, scope_id: u32 },
}

impl RemoteAddr {
    /// The address as a map key.
    pub open spec fn as_key(self) -> RemoteKey {
        match self {
            RemoteAddr::V4 { ip, port } => (4, ip as u128, port, 0, 0),
            RemoteAddr::V6 { ip6, port, flowinfo, scope_id } => (6, ip6, port, flowinfo, scope_id),
        }
    }

    /// The address as a map key.
    pub fn key(self) -> (r: RemoteKey)
        ensures
            r == self.as_key(),
    {
        match self {
            RemoteAddr::V4 { ip, port } => (4, ip as u128, port, 0, 0),
            RemoteAddr::V6 { ip6, port, flowinfo, scope_id } => (6, ip6, port, flowinfo, scope_id),
        }
    }
}

/// Different addresses have different keys.
pub proof fn law_keys_tell_addresses_apart(a: RemoteAddr, b: RemoteAddr)
    ensures
        a.as_key() == b.as_key() ==> a == b,
{
}

/// Parameters that wait for the controllers of one connection, and how many controllers
/// share them. A block that no controller holds is free.
#[derive(Debug)]
pub struct ControlBlock {
    pub remote: RemoteAddr,
    pub holders: u64,
    pub control: BrutalControl,
}

/// What a registry holds.
#[verifier::ext_equal]
pub struct RegistryView {
    /// The block that each registered address leads to.
    pub entries: Map<RemoteKey, usize>,
    /// The blocks, free ones among them.
    pub blocks: Seq<ControlBlock>,
}

impl RegistryView {
    /// Whether the block at `id` is in use.
    pub open spec fn alive(self, id: usize) -> bool {
        id < self.blocks.len() && self.blocks[id as int].holders > 0
    }

    /// The block at `id`.
    pub open spec fn block(self, id: usize) -> ControlBlock {
        self.blocks[id as int]
    }

    /// Whether the block at `id` is in use, for a connection to `remote`.
    pub open spec fn holds(self, id: usize, remote: RemoteAddr) -> bool {
        self.alive(id) && self.block(id).remote == remote
    }

    /// Whether a parameter for `remote` finds a block in use.
    pub open spec fn reachable(self, remote: RemoteAddr) -> bool {
        self.entries.contains_key(remote.as_key()) && self.alive(self.entries[remote.as_key()])
    }

    /// Every entry leads to a block in use, for the address of the entry.
    pub open spec fn wf(self) -> bool {
        forall|key: RemoteKey| #[trigger]
            self.entries.contains_key(key) ==> {
                &&& self.alive(self.entries[key])
                &&& self.block(self.entries[key]).remote.as_key() == key
            }
    }

    /// With another block at `id`.
    pub open spec fn with_block(self, id: usize, block: ControlBlock) -> RegistryView {
        RegistryView { blocks: self.blocks.update(id as int, block), ..self }
    }

    /// With other parameters waiting in the block at `id`.
    pub open spec fn with_control(self, id: usize, control: BrutalControl) -> RegistryView {
        self.with_block(id, ControlBlock { control, ..self.block(id) })
    }

    /// With another number of controllers sharing the block at `id`.
    pub open spec fn with_holders(self, id: usize, holders: int) -> RegistryView {
        self.with_block(id, ControlBlock { holders: holders as u64, ..self.block(id) })
    }

    /// After a controller for `remote` was registered with the block at `id`.
    pub open spec fn registered(self, remote: RemoteAddr, id: usize) -> RegistryView {
        let block = ControlBlock { remote, holders: 1, control: BrutalControl::idle() };
        RegistryView {
            entries: self.entries.insert(remote.as_key(), id),
            blocks: if id < self.blocks.len() {
                self.blocks.update(id as int, block)
            } else {
                self.blocks.push(block)
            },
        }
    }

    /// After one more controller shares the block at `id`.
    pub open spec fn shared(self, id: usize) -> RegistryView {
        self.with_holders(id, self.block(id).holders + 1)
    }

    /// After a controller for `remote` let go of the block at `id`: the address is no longer
    /// registered, whatever block it led to.
    pub open spec fn released(self, id: usize, remote: RemoteAddr) -> RegistryView {
        self.with_holders(id, self.block(id).holders - 1).struck_out(remote)
    }

    /// After an address was struck out.
    pub open spec fn struck_out(self, remote: RemoteAddr) -> RegistryView {
        RegistryView { entries: self.entries.remove(remote.as_key()), ..self }
    }

    /// After a parameter was set for `remote`: it waits in the block that the address leads
    /// to. An address that leads to no block in use is struck out.
    pub open spec fn parameter_set(
        self,
        remote: RemoteAddr,
        param: CongestionParameter,
    ) -> RegistryView {
        if self.reachable(remote) {
            let id = self.entries[remote.as_key()];
            self.with_control(id, self.block(id).control.with(param))
        } else {
            self.struck_out(remote)
        }
    }

    /// Whether `controllers` are those in use, each told by its block and its address: each
    /// of them has its block, and each block in use counts the controllers that share it.
    pub open spec fn accounts_for(self, controllers: Multiset<(usize, RemoteAddr)>) -> bool {
        &&& forall|id: usize, remote: RemoteAddr| #[trigger]
            controllers.count((id, remote)) > 0 ==> self.holds(id, remote)
        &&& forall|id: usize|
            self.alive(id) ==> (#[trigger] self.blocks[id as int]).holders == controllers.count(
                (id, self.block(id).remote),
            )
    }
}

/// The registered addresses and the blocks of waiting parameters.
pub struct Registry {
    entries: DashMap<RemoteKey, usize>,
    blocks: Vec<ControlBlock>,
}

impl View for Registry {
    type V = RegistryView;

    closed spec fn view(&self) -> RegistryView {
        RegistryView { entries: entries_of(self.entries), blocks: self.blocks@ }
    }
}

impl Registry {
    /// A registry without addresses or blocks.
    pub fn new() -> (r: Registry)
        ensures
            r@.entries == Map::<RemoteKey, usize>::empty(),
            r@.blocks == Seq::<ControlBlock>::empty(),
            r@.wf(),
    {
        Registry { entries: map_new(), blocks: Vec::new() }
    }

    /// Whether the block at `id` is in use, for a connection to `remote`.
    pub fn is_held(&self, id: usize, remote: RemoteAddr) -> (r: bool)
        ensures
            r == self@.holds(id, remote),
    {
        id < self.blocks.len() && self.blocks[id].holders > 0 && self.blocks[id].remote == remote
    }

    /// Whether one more controller can share the block at `id`.
    pub fn can_share(&self, id: usize) -> (r: bool)
        ensures
            r == (self@.alive(id) && self@.block(id).holders < u64::MAX),
    {
        id < self.blocks.len() && self.blocks[id].holders > 0 && self.blocks[id].holders
            < u64::MAX
    }

    /// A place for a new block: the first free block, or the end.
    fn free_place(&self) -> (r: usize)
        ensures
            r <= self.blocks@.len(),
            !self@.alive(r),
            forall|i: usize| i < r ==> #[trigger] self@.alive(i),
    {
        let mut id: usize = 0;
        while id < self.blocks.len()
            invariant
                id <= self.blocks@.len(),
                forall|i: usize| i < id ==> #[trigger] self@.alive(i),
            decreases self.blocks@.len() - id,
        {
            if self.blocks[id].holders == 0 {
                return id;
            }
            id = id + 1;
        }
        id
    }

    /// Gives a new controller for `remote` a block of its own and has the address lead to
    /// it, whatever block the address led to.
    pub fn register_controller(&mut self, remote: RemoteAddr) -> (id: usize)
        ensures
            !old(self)@.alive(id),
            id <= old(self)@.blocks.len(),
            forall|i: usize| i < id ==> #[trigger] old(self)@.alive(i),
            final(self)@ == old(self)@.registered(remote, id),
            final(self)@.entries == old(self)@.entries.insert(remote.as_key(), id),
    {
        let id: usize = self.free_place();
        let block = ControlBlock { remote, holders: 1, control: BrutalControl::new() };
        if id < self.blocks.len() {
            self.blocks[id] = block;
        } else {
            self.blocks.push(block);
        }
        map_insert(&mut self.entries, remote.key(), id);
        id
    }

    /// The parameters that wait in the block at `id`.
    pub fn control_mut(&mut self, id: usize) -> (r: &mut BrutalControl)
        requires
            old(self)@.alive(id),
        ensures
            *r == old(self)@.block(id).control,
            final(self)@ == old(self)@.with_control(id, *final(r)),
    {
        &mut self.blocks[id].control
    }

    /// Has one more controller share the block at `id`.
    pub fn share(&mut self, id: usize)
        requires
            old(self)@.alive(id),
            old(self)@.block(id).holders < u64::MAX,
        ensures
            final(self)@ == old(self)@.shared(id),
    {
        self.blocks[id].holders = self.blocks[id].holders + 1;
    }

    /// The parameters that wait in the block at `id`, to be looked at.
    pub fn control(&self, id: usize) -> (r: &BrutalControl)
        requires
            self@.alive(id),
        ensures
            *r == self@.block(id).control,
    {
        &self.blocks[id].control
    }

    /// Strikes out an address.
    pub fn strike_out(&mut self, remote: RemoteAddr)
        ensures
            final(self)@ == old(self)@.struck_out(remote),
    {
        map_remove(&mut self.entries, &remote.key());
    }

    /// Strikes out the address of a controller and has it let go of the block at `id`.
    pub fn release(&mut self, id: usize, remote: RemoteAddr)
        requires
            old(self)@.alive(id),
        ensures
            final(self)@ == old(self)@.released(id, remote),
    {
        self.strike_out(remote);
        self.blocks[id].holders = self.blocks[id].holders - 1;
    }

    /// Has a parameter wait for the controllers that `remote` leads to.
    pub fn set_parameter(&mut self, remote: RemoteAddr, param: CongestionParameter) -> (r: Result<
        (),
        ConfigError,
    >)
        ensures
            final(self)@ == old(self)@.parameter_set(remote, param),
            r == if old(self)@.reachable(remote) {
                Ok::<(), ConfigError>(())
            } else {
                Err(ConfigError::OutOfBounds)
            },
    {
        let key: RemoteKey = remote.key();
        if let Some(id) = map_get(&mut self.entries, &key) {
            if id < self.blocks.len() && self.blocks[id].holders > 0 {
                self.blocks[id].control.store_parameter(param);
                return Ok(());
            }
        }
        self.strike_out(remote);
        Err(ConfigError::OutOfBounds)
    }
}

/// Registering a controller leaves every entry leading to a block in use, and has the
/// address lead to one.
pub proof fn law_register_keeps_wf(registry: RegistryView, remote: RemoteAddr, id: usize)
    requires
        registry.wf(),
        !registry.alive(id),
        id <= registry.blocks.len(),
    ensures
        registry.registered(remote, id).wf(),
        registry.registered(remote, id).reachable(remote),
{
}

/// Sharing a block leaves every entry leading to a block in use.
pub proof fn law_share_keeps_wf(registry: RegistryView, id: usize)
    requires
        registry.wf(),
        registry.alive(id),
        registry.block(id).holders < u64::MAX,
    ensures
        registry.shared(id).wf(),
{
}

/// Letting go of a block leaves every entry leading to a block in use, and the address
/// leading to none.
pub proof fn law_release_keeps_wf(registry: RegistryView, id: usize, remote: RemoteAddr)
    requires
        registry.wf(),
        registry.holds(id, remote),
    ensures
        registry.released(id, remote).wf(),
        !registry.released(id, remote).reachable(remote),
{
}

/// Handing out what waits in a block leaves every entry leading to a block in use.
pub proof fn law_drain_keeps_wf(registry: RegistryView, id: usize, control: BrutalControl)
    requires
        registry.wf(),
        registry.alive(id),
    ensures
        registry.with_control(id, control).wf(),
{
}

/// Setting a parameter leaves every entry leading to a block in use.
pub proof fn law_set_keeps_wf(
    registry: RegistryView,
    remote: RemoteAddr,
    param: CongestionParameter,
)
    requires
        registry.wf(),
    ensures
        registry.parameter_set(remote, param).wf(),
{
}

/// No controller is in use at first.
pub proof fn law_account_starts_empty(registry: RegistryView)
    requires
        registry.blocks.len() == 0,
    ensures
        registry.accounts_for(Multiset::empty()),
{
}

/// A controller in use has its block.
pub proof fn law_controllers_in_use_have_their_block(
    registry: RegistryView,
    controllers: Multiset<(usize, RemoteAddr)>,
    id: usize,
    remote: RemoteAddr,
)
    requires
        registry.accounts_for(controllers),
        controllers.contains((id, remote)),
    ensures
        registry.holds(id, remote),
{
    assert(controllers.count((id, remote)) > 0);
}

/// Building a controller adds it to those in use.
pub proof fn law_register_accounts(
    registry: RegistryView,
    controllers: Multiset<(usize, RemoteAddr)>,
    id: usize,
    remote: RemoteAddr,
)
    requires
        registry.accounts_for(controllers),
        !registry.alive(id),
        id <= registry.blocks.len(),
    ensures
        registry.registered(remote, id).accounts_for(controllers.insert((id, remote))),
{
    assert(controllers.count((id, remote)) == 0);
}

/// Cloning a controller adds the clone to those in use.
pub proof fn law_share_accounts(
    registry: RegistryView,
    controllers: Multiset<(usize, RemoteAddr)>,
    id: usize,
    remote: RemoteAddr,
)
    requires
        registry.accounts_for(controllers),
        controllers.contains((id, remote)),
        registry.block(id).holders < u64::MAX,
    ensures
        registry.shared(id).accounts_for(controllers.insert((id, remote))),
{
    law_controllers_in_use_have_their_block(registry, controllers, id, remote);
}

/// Ending a controller takes it out of those in use, and every other one keeps its block.
pub proof fn law_release_accounts(
    registry: RegistryView,
    controllers: Multiset<(usize, RemoteAddr)>,
    id: usize,
    remote: RemoteAddr,
)
    requires
        registry.accounts_for(controllers),
        controllers.contains((id, remote)),
    ensures
        registry.released(id, remote).accounts_for(controllers.remove((id, remote))),
{
    law_controllers_in_use_have_their_block(registry, controllers, id, remote);
}

/// Taking over what waits changes nothing about which controllers are in use.
pub proof fn law_drain_accounts(
    registry: RegistryView,
    controllers: Multiset<(usize, RemoteAddr)>,
    id: usize,
    control: BrutalControl,
)
    requires
        registry.accounts_for(controllers),
        registry.alive(id),
    ensures
        registry.with_control(id, control).accounts_for(controllers),
{
}

/// Setting a parameter changes nothing about which controllers are in use.
pub proof fn law_set_accounts(
    registry: RegistryView,
    controllers: Multiset<(usize, RemoteAddr)>,
    remote: RemoteAddr,
    param: CongestionParameter,
)
    requires
        registry.accounts_for(controllers),
    ensures
        registry.parameter_set(remote, param).accounts_for(controllers),
{
}

} // verus!
