//! The issuer's store: the owner, the denom, the freeze flag, how far the
//! provisioning has come, and the seven address-keyed maps.
//!
//! Absence stands for zero and for `false`: no map ever holds a zero
//! allowance or a `false` flag. The writers below keep it so.

use crate::address_map::entries_view;
use crate::address_map::listable;
use crate::address_map::listing;
use crate::address_map::page;
use crate::address_map::AddressMap;
use crate::cw_tokenfactory_issuer::error::AllowanceKind;
use crate::text::opt_view;
use vstd::prelude::*;

verus! {

/// How far the provisioning of the denom and of its transfer guard has come.
/// A store exists from the instantiation on, so an issuer that has not been
/// instantiated has no value here.
#[derive(Clone, Copy, Debug, PartialEq, Eq, Structural)]
pub enum Provisioning {
    /// The creation of the denom has been asked for and not answered yet.
    AssetPending,
    /// The denom is known; the guard has not been asked for.
    AssetReady,
    /// The registration of the guard has been asked for and not answered yet.
    GuardPending,
    /// The chain asks the issuer before every transfer.
    GuardActive,
    /// The chain does not ask the issuer before transfers.
    GuardInactive,
}

/// The roles that the owner grants. Each allows one action.
#[derive(Clone, Copy, Debug, PartialEq, Eq, Structural)]
pub enum Role {
    /// May put addresses on the blacklist and take them off.
    Blacklister,
    /// May put addresses on the whitelist and take them off.
    Whitelister,
    /// May freeze and unfreeze the denom.
    Freezer,
}

/// The two lists of addresses.
#[derive(Clone, Copy, Debug, PartialEq, Eq, Structural)]
pub enum Status {
    /// May neither send nor receive the denom.
    Blacklisted,
    /// Marked for other contracts to read. The guard does not ask for it.
    Whitelisted,
}

/// The amount that `m` holds for `a`: zero where it holds none.
pub open spec fn amount_at(m: Map<Seq<char>, u128>, a: Seq<char>) -> u128 {
    if m.contains_key(a) {
        m[a]
    } else {
        0
    }
}

/// The flag that `m` holds for `a`: `false` where it holds none.
pub open spec fn flag_at(m: Map<Seq<char>, bool>, a: Seq<char>) -> bool {
    m.contains_key(a) && m[a]
}

/// `m` with the amount of `a` set to `v`; a zero amount leaves no entry.
pub open spec fn with_amount(m: Map<Seq<char>, u128>, a: Seq<char>, v: u128) -> Map<
    Seq<char>,
    u128,
> {
    if v == 0 {
        m.remove(a)
    } else {
        m.insert(a, v)
    }
}

/// `m` with the flag of `a` set to `b`; `false` leaves no entry.
pub open spec fn with_flag(m: Map<Seq<char>, bool>, a: Seq<char>, b: bool) -> Map<
    Seq<char>,
    bool,
> {
    if b {
        m.insert(a, true)
    } else {
        m.remove(a)
    }
}

/// A map of allowances is finite and holds no zero.
pub open spec fn amounts_wf(m: Map<Seq<char>, u128>) -> bool {
    &&& listable(m)
    &&& forall|a: Seq<char>| m.contains_key(a) ==> #[trigger] m[a] > 0
}

/// A map of flags is finite and holds no `false`.
pub open spec fn flags_wf(m: Map<Seq<char>, bool>) -> bool {
    &&& listable(m)
    &&& forall|a: Seq<char>| m.contains_key(a) ==> #[trigger] m[a]
}

/// The store as plain values.
pub struct StateView {
    /// The name under which the issuer is registered.
    pub contract: Seq<char>,
    /// The version of the code that last wrote the store.
    pub version: Seq<char>,
    pub owner: Seq<char>,
    pub denom: Option<Seq<char>>,
    pub is_frozen: bool,
    pub provisioning: Provisioning,
    pub minter_allowances: Map<Seq<char>, u128>,
    pub burner_allowances: Map<Seq<char>, u128>,
    pub blacklister_allowances: Map<Seq<char>, bool>,
    pub whitelister_allowances: Map<Seq<char>, bool>,
    pub freezer_allowances: Map<Seq<char>, bool>,
    pub blacklisted_addresses: Map<Seq<char>, bool>,
    pub whitelisted_addresses: Map<Seq<char>, bool>,
}

impl StateView {
    /// Every map is finite, and absence stands for zero and for `false`.
    pub open spec fn wf(self) -> bool {
        &&& amounts_wf(self.minter_allowances)
        &&& amounts_wf(self.burner_allowances)
        &&& flags_wf(self.blacklister_allowances)
        &&& flags_wf(self.whitelister_allowances)
        &&& flags_wf(self.freezer_allowances)
        &&& flags_wf(self.blacklisted_addresses)
        &&& flags_wf(self.whitelisted_addresses)
    }

    /// Whether the chain asks the issuer before every transfer.
    pub open spec fn guard_active(self) -> bool {
        self.provisioning == Provisioning::GuardActive
    }

    /// The allowances of one kind.
    pub open spec fn amounts(self, kind: AllowanceKind) -> Map<Seq<char>, u128> {
        match kind {
            AllowanceKind::Mint => self.minter_allowances,
            AllowanceKind::Burn => self.burner_allowances,
        }
    }

    /// The holders of one role.
    pub open spec fn roles(self, role: Role) -> Map<Seq<char>, bool> {
        match role {
            Role::Blacklister => self.blacklister_allowances,
            Role::Whitelister => self.whitelister_allowances,
            Role::Freezer => self.freezer_allowances,
        }
    }

    /// The addresses on one list.
    pub open spec fn statuses(self, which: Status) -> Map<Seq<char>, bool> {
        match which {
            Status::Blacklisted => self.blacklisted_addresses,
            Status::Whitelisted => self.whitelisted_addresses,
        }
    }

    /// What `holder` has left of one kind of allowance.
    pub open spec fn allowance(self, kind: AllowanceKind, holder: Seq<char>) -> u128 {
        amount_at(self.amounts(kind), holder)
    }

    /// Whether `holder` has a role.
    pub open spec fn has_role(self, role: Role, holder: Seq<char>) -> bool {
        flag_at(self.roles(role), holder)
    }

    /// Whether `address` is on a list.
    pub open spec fn has_status(self, which: Status, address: Seq<char>) -> bool {
        flag_at(self.statuses(which), address)
    }

    /// This store with the denom recorded, where it held none. A denom that
    /// a store holds is never replaced.
    pub open spec fn with_denom(self, denom: Seq<char>) -> StateView {
        if self.denom is None {
            StateView { denom: Some(denom), ..self }
        } else {
            self
        }
    }

    /// This store with one allowance overwritten.
    pub open spec fn with_allowance(self, kind: AllowanceKind, holder: Seq<char>, amount: u128)
        -> StateView {
        match kind {
            AllowanceKind::Mint => StateView {
                minter_allowances: with_amount(self.minter_allowances, holder, amount),
                ..self
            },
            AllowanceKind::Burn => StateView {
                burner_allowances: with_amount(self.burner_allowances, holder, amount),
                ..self
            },
        }
    }

    /// This store with one role granted or taken away.
    pub open spec fn with_role(self, role: Role, holder: Seq<char>, status: bool) -> StateView {
        match role {
            Role::Blacklister => StateView {
                blacklister_allowances: with_flag(self.blacklister_allowances, holder, status),
                ..self
            },
            Role::Whitelister => StateView {
                whitelister_allowances: with_flag(self.whitelister_allowances, holder, status),
                ..self
            },
            Role::Freezer => StateView {
                freezer_allowances: with_flag(self.freezer_allowances, holder, status),
                ..self
            },
        }
    }

    /// This store with one address put on a list or taken off it.
    pub open spec fn with_status(self, which: Status, address: Seq<char>, status: bool)
        -> StateView {
        match which {
            Status::Blacklisted => StateView {
                blacklisted_addresses: with_flag(self.blacklisted_addresses, address, status),
                ..self
            },
            Status::Whitelisted => StateView {
                whitelisted_addresses: with_flag(self.whitelisted_addresses, address, status),
                ..self
            },
        }
    }
}

/// The name under which the issuer registers its code.
pub const CONTRACT_NAME: &'static str = "crates.io:cw-tokenfactory-issuer";

/// The version of this code.
pub const CONTRACT_VERSION: &'static str = "0.1.0";

/// The store of a freshly instantiated issuer that still waits for its
/// denom.
pub open spec fn initial_state(owner: Seq<char>) -> StateView {
    StateView {
        contract: CONTRACT_NAME@,
        version: CONTRACT_VERSION@,
        owner,
        denom: None,
        is_frozen: false,
        provisioning: Provisioning::AssetPending,
        minter_allowances: Map::empty(),
        burner_allowances: Map::empty(),
        blacklister_allowances: Map::empty(),
        whitelister_allowances: Map::empty(),
        freezer_allowances: Map::empty(),
        blacklisted_addresses: Map::empty(),
        whitelisted_addresses: Map::empty(),
    }
}

/// Writes one amount into a map of allowances.
fn put_amount(map: &mut AddressMap<u128>, holder: String, amount: u128)
    ensures
        final(map)@ == with_amount(old(map)@, holder@, amount),
        listable(final(map)@),
{
    if amount == 0 {
        map.remove(holder.as_str());
    } else {
        map.set(holder, amount);
    }
}

/// Writes one flag into a map of flags.
fn put_flag(map: &mut AddressMap<bool>, address: String, status: bool)
    ensures
        final(map)@ == with_flag(old(map)@, address@, status),
        listable(final(map)@),
{
    if status {
        map.set(address, true);
    } else {
        map.remove(address.as_str());
    }
}

/// The issuer's store.
pub struct State {
    contract: String,
    version: String,
    owner: String,
    denom: Option<String>,
    is_frozen: bool,
    provisioning: Provisioning,
    minter_allowances: AddressMap<u128>,
    burner_allowances: AddressMap<u128>,
    blacklister_allowances: AddressMap<bool>,
    whitelister_allowances: AddressMap<bool>,
    freezer_allowances: AddressMap<bool>,
    blacklisted_addresses: AddressMap<bool>,
    whitelisted_addresses: AddressMap<bool>,
}

impl View for State {
    type V = StateView;

    closed spec fn view(&self) -> StateView {
        StateView {
            contract: self.contract@,
            version: self.version@,
            owner: self.owner@,
            denom: opt_view(self.denom),
            is_frozen: self.is_frozen,
            provisioning: self.provisioning,
            minter_allowances: self.minter_allowances@,
            burner_allowances: self.burner_allowances@,
            blacklister_allowances: self.blacklister_allowances@,
            whitelister_allowances: self.whitelister_allowances@,
            freezer_allowances: self.freezer_allowances@,
            blacklisted_addresses: self.blacklisted_addresses@,
            whitelisted_addresses: self.whitelisted_addresses@,
        }
    }
}

impl State {
    /// What holds of every store: see [`StateView::wf`].
    #[verifier::type_invariant]
    pub open spec fn well_formed(&self) -> bool {
        self@.wf()
    }

    /// The store of a freshly instantiated issuer: `owner` owns it, the denom
    /// is not known yet, nothing is frozen and nobody holds anything.
    pub fn new(owner: String) -> (r: State)
        ensures
            r@ == initial_state(owner@),
            r@.wf(),
    {
        State {
            contract: CONTRACT_NAME.to_owned(),
            version: CONTRACT_VERSION.to_owned(),
            owner,
            denom: None,
            is_frozen: false,
            provisioning: Provisioning::AssetPending,
            minter_allowances: AddressMap::new(),
            burner_allowances: AddressMap::new(),
            blacklister_allowances: AddressMap::new(),
            whitelister_allowances: AddressMap::new(),
            freezer_allowances: AddressMap::new(),
            blacklisted_addresses: AddressMap::new(),
            whitelisted_addresses: AddressMap::new(),
        }
    }

    /// The owner.
    pub fn owner(&self) -> (r: &String)
        ensures
            r@ == self@.owner,
    {
        &self.owner
    }

    /// The denom, once it is known.
    pub fn denom(&self) -> (r: &Option<String>)
        ensures
            opt_view(*r) == self@.denom,
    {
        &self.denom
    }

    /// Whether transfers are frozen.
    pub fn is_frozen(&self) -> (r: bool)
        ensures
            r == self@.is_frozen,
    {
        self.is_frozen
    }

    /// How far the provisioning has come.
    pub fn provisioning(&self) -> (r: Provisioning)
        ensures
            r == self@.provisioning,
    {
        self.provisioning
    }

    /// Whether the chain asks the issuer before every transfer.
    pub fn guard_active(&self) -> (r: bool)
        ensures
            r == self@.guard_active(),
    {
        match self.provisioning {
            Provisioning::GuardActive => true,
            _ => false,
        }
    }

    /// The name under which the issuer is registered.
    pub fn contract(&self) -> (r: &String)
        ensures
            r@ == self@.contract,
    {
        &self.contract
    }

    /// The version of the code that last wrote the store.
    pub fn version(&self) -> (r: &String)
        ensures
            r@ == self@.version,
    {
        &self.version
    }

    /// What `holder` has left of one kind of allowance: zero where nothing is
    /// stored for it.
    pub fn allowance(&self, kind: AllowanceKind, holder: &str) -> (r: u128)
        ensures
            r == self@.allowance(kind, holder@),
    {
        let stored = match kind {
            AllowanceKind::Mint => self.minter_allowances.get(holder),
            AllowanceKind::Burn => self.burner_allowances.get(holder),
        };
        match stored {
            Some(amount) => amount,
            None => 0,
        }
    }

    /// Whether `holder` has a role: `false` where nothing is stored for it.
    pub fn has_role(&self, role: Role, holder: &str) -> (r: bool)
        ensures
            r == self@.has_role(role, holder@),
    {
        let stored = match role {
            Role::Blacklister => self.blacklister_allowances.get(holder),
            Role::Whitelister => self.whitelister_allowances.get(holder),
            Role::Freezer => self.freezer_allowances.get(holder),
        };
        match stored {
            Some(status) => status,
            None => false,
        }
    }

    /// Whether `address` is on a list: `false` where nothing is stored for
    /// it.
    pub fn has_status(&self, which: Status, address: &str) -> (r: bool)
        ensures
            r == self@.has_status(which, address@),
    {
        let stored = match which {
            Status::Blacklisted => self.blacklisted_addresses.get(address),
            Status::Whitelisted => self.whitelisted_addresses.get(address),
        };
        match stored {
            Some(status) => status,
            None => false,
        }
    }

    /// Hands the store to a new owner.
    pub fn set_owner(&mut self, owner: String)
        ensures
            final(self)@ == (StateView { owner: owner@, ..old(self)@ }),
    {
        proof {
            use_type_invariant(&*self);
        }
        self.owner = owner;
    }

    /// Records the denom, where none is recorded yet. A denom that is
    /// recorded stays.
    pub fn set_denom(&mut self, denom: String)
        ensures
            final(self)@ == old(self)@.with_denom(denom@),
    {
        proof {
            use_type_invariant(&*self);
        }
        if self.denom.is_none() {
            self.denom = Some(denom);
        }
    }

    /// Freezes or unfreezes transfers.
    pub fn set_frozen(&mut self, status: bool)
        ensures
            final(self)@ == (StateView { is_frozen: status, ..old(self)@ }),
    {
        proof {
            use_type_invariant(&*self);
        }
        self.is_frozen = status;
    }

    /// Records how far the provisioning has come.
    pub fn set_provisioning(&mut self, provisioning: Provisioning)
        ensures
            final(self)@ == (StateView { provisioning, ..old(self)@ }),
    {
        proof {
            use_type_invariant(&*self);
        }
        self.provisioning = provisioning;
    }

    /// Records the name and version of the code that writes the store.
    pub fn set_contract_version(&mut self, contract: &str, version: &str)
        ensures
            final(self)@ == (StateView { contract: contract@, version: version@, ..old(self)@ }),
    {
        proof {
            use_type_invariant(&*self);
        }
        self.contract = contract.to_owned();
        self.version = version.to_owned();
    }

    /// Overwrites one allowance. A zero amount removes the entry.
    pub fn set_allowance(&mut self, kind: AllowanceKind, holder: String, amount: u128)
        ensures
            final(self)@ == old(self)@.with_allowance(kind, holder@, amount),
    {
        proof {
            use_type_invariant(&*self);
        }
        let mut map: AddressMap<u128> = AddressMap::new();
        match kind {
            AllowanceKind::Mint => {
                core::mem::swap(&mut self.minter_allowances, &mut map);
                put_amount(&mut map, holder, amount);
                self.minter_allowances = map;
            },
            AllowanceKind::Burn => {
                core::mem::swap(&mut self.burner_allowances, &mut map);
                put_amount(&mut map, holder, amount);
                self.burner_allowances = map;
            },
        }
    }

    /// Grants a role or takes it away. Taking it away removes the entry.
    pub fn set_role(&mut self, role: Role, holder: String, status: bool)
        ensures
            final(self)@ == old(self)@.with_role(role, holder@, status),
    {
        proof {
            use_type_invariant(&*self);
        }
        let mut map: AddressMap<bool> = AddressMap::new();
        match role {
            Role::Blacklister => {
                core::mem::swap(&mut self.blacklister_allowances, &mut map);
                put_flag(&mut map, holder, status);
                self.blacklister_allowances = map;
            },
            Role::Whitelister => {
                core::mem::swap(&mut self.whitelister_allowances, &mut map);
                put_flag(&mut map, holder, status);
                self.whitelister_allowances = map;
            },
            Role::Freezer => {
                core::mem::swap(&mut self.freezer_allowances, &mut map);
                put_flag(&mut map, holder, status);
                self.freezer_allowances = map;
            },
        }
    }

    /// Puts an address on a list or takes it off. Taking it off removes the
    /// entry.
    pub fn set_status(&mut self, which: Status, address: String, status: bool)
        ensures
            final(self)@ == old(self)@.with_status(which, address@, status),
    {
        proof {
            use_type_invariant(&*self);
        }
        let mut map: AddressMap<bool> = AddressMap::new();
        match which {
            Status::Blacklisted => {
                core::mem::swap(&mut self.blacklisted_addresses, &mut map);
                put_flag(&mut map, address, status);
                self.blacklisted_addresses = map;
            },
            Status::Whitelisted => {
                core::mem::swap(&mut self.whitelisted_addresses, &mut map);
                put_flag(&mut map, address, status);
                self.whitelisted_addresses = map;
            },
        }
    }

    /// One page of the allowances of one kind, in ascending order of
    /// address: those after `start_after`, at most `limit` of them.
    pub fn list_allowances(
        &self,
        kind: AllowanceKind,
        start_after: &Option<String>,
        limit: usize,
    ) -> (r: Vec<(String, u128)>)
        ensures
            entries_view(r@) == page(
                listing(self@.amounts(kind)),
                opt_view(*start_after),
                limit as nat,
            ),
    {
        match kind {
            AllowanceKind::Mint => self.minter_allowances.list(start_after, limit),
            AllowanceKind::Burn => self.burner_allowances.list(start_after, limit),
        }
    }

    /// One page of the holders of one role, in ascending order of address.
    pub fn list_roles(&self, role: Role, start_after: &Option<String>, limit: usize) -> (r: Vec<
        (String, bool),
    >)
        ensures
            entries_view(r@) == page(
                listing(self@.roles(role)),
                opt_view(*start_after),
                limit as nat,
            ),
    {
        match role {
            Role::Blacklister => self.blacklister_allowances.list(start_after, limit),
            Role::Whitelister => self.whitelister_allowances.list(start_after, limit),
            Role::Freezer => self.freezer_allowances.list(start_after, limit),
        }
    }

    /// One page of the addresses on one list, in ascending order of address.
    pub fn list_statuses(&self, which: Status, start_after: &Option<String>, limit: usize) -> (r:
        Vec<(String, bool)>)
        ensures
            entries_view(r@) == page(
                listing(self@.statuses(which)),
                opt_view(*start_after),
                limit as nat,
            ),
    {
        match which {
            Status::Blacklisted => self.blacklisted_addresses.list(start_after, limit),
            Status::Whitelisted => self.whitelisted_addresses.list(start_after, limit),
        }
    }
}

} // verus!
