//! What holds of the issuer whatever the store and whoever calls.
//!
//! The laws speak of the models of the operations. Each operation is proved
//! to do what its model says, so they hold of the operations themselves.

use crate::address_map::ascending;
use crate::address_map::has_address;
use crate::address_map::index_of;
use crate::address_map::lemma_listable_empty;
use crate::address_map::lemma_listable_insert;
use crate::address_map::lemma_listable_remove;
use crate::address_map::lemma_page;
use crate::address_map::listable;
use crate::address_map::listing;
use crate::cw_tokenfactory_issuer::contract::create_denom_reply;
use crate::cw_tokenfactory_issuer::contract::execute_model;
use crate::cw_tokenfactory_issuer::contract::instantiate_model;
use crate::cw_tokenfactory_issuer::contract::migrate_model;
use crate::cw_tokenfactory_issuer::contract::reply_model;
use crate::cw_tokenfactory_issuer::error::refused_with;
use crate::cw_tokenfactory_issuer::error::AllowanceKind;
use crate::cw_tokenfactory_issuer::error::ContractErrorView;
use crate::cw_tokenfactory_issuer::execute::burn_model;
use crate::cw_tokenfactory_issuer::execute::guard_registration;
use crate::cw_tokenfactory_issuer::execute::mint_model;
use crate::cw_tokenfactory_issuer::execute::set_allowance_model;
use crate::cw_tokenfactory_issuer::execute::set_role_model;
use crate::cw_tokenfactory_issuer::execute::set_status_model;
use crate::cw_tokenfactory_issuer::execute::store_after;
use crate::cw_tokenfactory_issuer::execute::BEFORE_SEND_HOOK_REPLY_ID;
use crate::cw_tokenfactory_issuer::execute::CREATE_DENOM_REPLY_ID;
use crate::cw_tokenfactory_issuer::hooks::guard_decision;
use crate::cw_tokenfactory_issuer::msg::ExecuteMsg;
use crate::cw_tokenfactory_issuer::msg::InstantiateMsg;
use crate::cw_tokenfactory_issuer::queries::effective_limit;
use crate::cw_tokenfactory_issuer::queries::page_of;
use crate::cw_tokenfactory_issuer::queries::DEFAULT_LIMIT;
use crate::cw_tokenfactory_issuer::queries::MAX_LIMIT;
use crate::chain::ReplyOn;
use crate::cw_tokenfactory_issuer::response::SubMsgView;
use crate::cw_tokenfactory_issuer::state::amounts_wf;
use crate::cw_tokenfactory_issuer::state::flags_wf;
use crate::cw_tokenfactory_issuer::state::with_amount;
use crate::cw_tokenfactory_issuer::state::with_flag;
use crate::cw_tokenfactory_issuer::state::Role;
use crate::cw_tokenfactory_issuer::state::StateView;
use crate::cw_tokenfactory_issuer::state::Status;
use crate::text::addr_lt;
use vstd::prelude::*;

verus! {

/// A mint that the sender's allowance covers goes through and takes the
/// amount off the allowance; one that it does not cover is refused as
/// `InsufficientAllowance` and leaves the allowance as it was. This holds
/// once the denom is known; before that there is nothing to mint.
pub proof fn law_mint_spends_allowance(
    s: StateView,
    sender: Seq<char>,
    to_address: Seq<char>,
    amount: u128,
)
    requires
        s.denom is Some,
    ensures
        amount <= s.allowance(AllowanceKind::Mint, sender) ==> mint_model(
            s,
            sender,
            to_address,
            amount,
        ) is Ok && store_after(s, mint_model(s, sender, to_address, amount)).allowance(
            AllowanceKind::Mint,
            sender,
        ) == s.allowance(AllowanceKind::Mint, sender) - amount,
        amount > s.allowance(AllowanceKind::Mint, sender) ==> refused_with(
            mint_model(s, sender, to_address, amount),
            (ContractErrorView::InsufficientAllowance {
                kind: AllowanceKind::Mint,
                holder: sender,
                requested: amount,
                available: s.allowance(AllowanceKind::Mint, sender),
            }),
        ) && store_after(s, mint_model(s, sender, to_address, amount)).allowance(
            AllowanceKind::Mint,
            sender,
        ) == s.allowance(AllowanceKind::Mint, sender),
{
}

/// The same for burning and the burn allowance.
pub proof fn law_burn_spends_allowance(
    s: StateView,
    sender: Seq<char>,
    from_address: Seq<char>,
    amount: u128,
)
    requires
        s.denom is Some,
    ensures
        amount <= s.allowance(AllowanceKind::Burn, sender) ==> burn_model(
            s,
            sender,
            from_address,
            amount,
        ) is Ok && store_after(s, burn_model(s, sender, from_address, amount)).allowance(
            AllowanceKind::Burn,
            sender,
        ) == s.allowance(AllowanceKind::Burn, sender) - amount,
        amount > s.allowance(AllowanceKind::Burn, sender) ==> refused_with(
            burn_model(s, sender, from_address, amount),
            (ContractErrorView::InsufficientAllowance {
                kind: AllowanceKind::Burn,
                holder: sender,
                requested: amount,
                available: s.allowance(AllowanceKind::Burn, sender),
            }),
        ) && store_after(s, burn_model(s, sender, from_address, amount)).allowance(
            AllowanceKind::Burn,
            sender,
        ) == s.allowance(AllowanceKind::Burn, sender),
{
}

/// Once the owner has set an allowance to zero, no page of the listing
/// holds the address, and the lookup of the address answers zero.
pub proof fn law_zero_allowance_is_absent(
    s: StateView,
    kind: AllowanceKind,
    address: Seq<char>,
    start_after: Option<Seq<char>>,
    limit: Option<u32>,
)
    requires
        s.wf(),
    ensures
        set_allowance_model(s, s.owner, kind, address, 0) is Ok,
        !has_address(
            page_of(
                store_after(s, set_allowance_model(s, s.owner, kind, address, 0)).amounts(kind),
                start_after,
                limit,
            ),
            address,
        ),
        store_after(s, set_allowance_model(s, s.owner, kind, address, 0)).allowance(kind, address)
            == 0,
{
    let after = store_after(s, set_allowance_model(s, s.owner, kind, address, 0));
    let m = after.amounts(kind);
    lemma_listable_remove(s.amounts(kind), address);
    lemma_page(m, start_after, effective_limit(limit));
    let p = page_of(m, start_after, limit);
    if has_address(p, address) {
        // what is on a page is in the map
        assert(m.contains_key(p[index_of(p, address)].0));
    }
}

/// Once the owner has taken a role away, no page of the role's listing
/// holds the address, and the lookup of the address answers `false`.
pub proof fn law_revoked_role_is_absent(
    s: StateView,
    role: Role,
    address: Seq<char>,
    start_after: Option<Seq<char>>,
    limit: Option<u32>,
)
    requires
        s.wf(),
        s.guard_active(),
    ensures
        set_role_model(s, s.owner, role, address, false) is Ok,
        !has_address(
            page_of(
                store_after(s, set_role_model(s, s.owner, role, address, false)).roles(role),
                start_after,
                limit,
            ),
            address,
        ),
        !store_after(s, set_role_model(s, s.owner, role, address, false)).has_role(role, address),
{
    let after = store_after(s, set_role_model(s, s.owner, role, address, false));
    let m = after.roles(role);
    lemma_listable_remove(s.roles(role), address);
    lemma_page(m, start_after, effective_limit(limit));
    let p = page_of(m, start_after, limit);
    if has_address(p, address) {
        // what is on a page is in the map
        assert(m.contains_key(p[index_of(p, address)].0));
    }
}

/// Once a holder of the list's role has taken an address off a list, no
/// page of the list holds the address, and the lookup of the address
/// answers `false`.
pub proof fn law_cleared_status_is_absent(
    s: StateView,
    sender: Seq<char>,
    which: Status,
    address: Seq<char>,
    start_after: Option<Seq<char>>,
    limit: Option<u32>,
)
    requires
        s.wf(),
        set_status_model(s, sender, which, address, false) is Ok,
    ensures
        !has_address(
            page_of(
                store_after(s, set_status_model(s, sender, which, address, false)).statuses(which),
                start_after,
                limit,
            ),
            address,
        ),
        !store_after(s, set_status_model(s, sender, which, address, false)).has_status(
            which,
            address,
        ),
{
    let after = store_after(s, set_status_model(s, sender, which, address, false));
    let m = after.statuses(which);
    lemma_listable_remove(s.statuses(which), address);
    lemma_page(m, start_after, effective_limit(limit));
    let p = page_of(m, start_after, limit);
    if has_address(p, address) {
        // what is on a page is in the map
        assert(m.contains_key(p[index_of(p, address)].0));
    }
}

/// While the denom is frozen the guard refuses every transfer as `Frozen`,
/// whoever is on the blacklist. While it is not frozen and neither party is
/// on the blacklist, the guard lets the transfer pass.
pub proof fn law_guard(s: StateView, from: Seq<char>, to: Seq<char>)
    ensures
        s.is_frozen ==> refused_with(guard_decision(s, from, to), ContractErrorView::Frozen),
        !s.is_frozen && !s.has_status(Status::Blacklisted, from) && !s.has_status(
            Status::Blacklisted,
            to,
        ) ==> guard_decision(s, from, to) is Ok,
        !s.is_frozen && s.has_status(Status::Blacklisted, from) ==> refused_with(
            guard_decision(s, from, to),
            (ContractErrorView::Blacklisted { address: from }),
        ),
        !s.is_frozen && !s.has_status(Status::Blacklisted, from) && s.has_status(
            Status::Blacklisted,
            to,
        ) ==> refused_with(
            guard_decision(s, from, to),
            (ContractErrorView::Blacklisted { address: to }),
        ),
{
}

/// A listing answers with entries of the map in ascending order of address.
/// A query that names no limit gets the default number of entries, or all
/// of them where there are fewer. A query that names a cursor gets only
/// addresses that sort after the cursor, so neither the cursor nor anything
/// before it. A query that asks for more than the maximum gets what it would
/// get for the maximum. And a page skips nothing: an entry after the cursor
/// that sorts before the page's last entry is on the page.
pub proof fn law_pagination<V>(
    m: Map<Seq<char>, V>,
    start_after: Option<Seq<char>>,
    limit: Option<u32>,
)
    requires
        listable(m),
    ensures
        ascending(page_of(m, start_after, limit)),
        forall|i: int|
            #![trigger page_of(m, start_after, limit)[i]]
            0 <= i < page_of(m, start_after, limit).len() ==> m.contains_key(
                page_of(m, start_after, limit)[i].0,
            ) && m[page_of(m, start_after, limit)[i].0] == page_of(m, start_after, limit)[i].1,
        page_of(m, None, None).len() == (if DEFAULT_LIMIT <= listing(m).len() {
            DEFAULT_LIMIT as nat
        } else {
            listing(m).len()
        }),
        start_after matches Some(x) ==> forall|i: int|
            #![trigger page_of(m, start_after, limit)[i]]
            0 <= i < page_of(m, start_after, limit).len() ==> addr_lt(
                x,
                page_of(m, start_after, limit)[i].0,
            ),
        limit matches Some(l) && l > MAX_LIMIT ==> page_of(m, start_after, limit) == page_of(
            m,
            start_after,
            Some(MAX_LIMIT),
        ),
        page_of(m, start_after, limit).len() <= MAX_LIMIT,
        forall|k: Seq<char>|
            #![trigger m.contains_key(k)]
            m.contains_key(k) && (start_after matches Some(x) ==> addr_lt(x, k)) && page_of(
                m,
                start_after,
                limit,
            ).len() > 0 && addr_lt(k, page_of(m, start_after, limit).last().0) ==> has_address(
                page_of(m, start_after, limit),
                k,
            ),
{
    lemma_page(m, start_after, effective_limit(limit));
}

/// The provisioning of a new denom. When the answer to the creation holds a
/// denom and the store waits for one, the denom is stored and the
/// registration of the guard is asked for, to be answered either way. When
/// the registration has succeeded the guard is active. When it has failed
/// the guard is inactive, and the reply goes through all the same.
pub proof fn law_provisioning(
    s: StateView,
    contract: Seq<char>,
    outcome: Result<Option<Seq<u8>>, Seq<char>>,
)
    ensures
        create_denom_reply(outcome) matches Ok(denom) ==> s.denom is None ==> (reply_model(
            s,
            contract,
            CREATE_DENOM_REPLY_ID,
            outcome,
        ) matches Ok((after, response)) && after.denom == Some(denom) && response.messages == seq![
            SubMsgView {
                id: BEFORE_SEND_HOOK_REPLY_ID,
                msg: guard_registration(contract, denom),
                reply_on: ReplyOn::Always,
            },
        ]),
        outcome is Ok ==> (reply_model(s, contract, BEFORE_SEND_HOOK_REPLY_ID, outcome) matches Ok(
            (after, _),
        ) && after.guard_active()),
        outcome is Err ==> (reply_model(s, contract, BEFORE_SEND_HOOK_REPLY_ID, outcome) matches Ok(
            (after, _),
        ) && !after.guard_active()),
        reply_model(s, contract, BEFORE_SEND_HOOK_REPLY_ID, outcome) matches Ok((after, _))
            && after.denom == s.denom && after.owner == s.owner,
{
    if s.denom is None && create_denom_reply(outcome) is Ok {
        let denom = create_denom_reply(outcome)->Ok_0;
        let response = reply_model(s, contract, CREATE_DENOM_REPLY_ID, outcome)->Ok_0.1;
        assert(response.messages =~= seq![
            SubMsgView {
                id: BEFORE_SEND_HOOK_REPLY_ID,
                msg: guard_registration(contract, denom),
                reply_on: ReplyOn::Always,
            },
        ]);
    }
}

/// The messages that only the owner may send.
pub open spec fn for_owner_only(msg: ExecuteMsg) -> bool {
    msg is ForceTransfer || msg is ChangeTokenFactoryAdmin || msg is ChangeContractOwner
        || msg is SetMinterAllowance || msg is SetBurnerAllowance || msg is SetBeforeSendHook
        || msg is SetBlacklister || msg is SetWhitelister || msg is SetFreezer
        || msg is SetDenomMetadata
}

/// Whoever is not the owner is refused every message that is for the owner
/// only, as `Unauthorized`.
pub proof fn law_owner_only(s: StateView, contract: Seq<char>, sender: Seq<char>, msg: ExecuteMsg)
    requires
        sender != s.owner,
        for_owner_only(msg),
    ensures
        refused_with(execute_model(s, contract, sender, msg), ContractErrorView::Unauthorized),
{
}

/// A change of owner holds at once: the new owner owns the store right
/// after the change, and the old owner is refused every message that is for
/// the owner only, as `Unauthorized`.
pub proof fn law_ownership_transfer(
    s: StateView,
    contract: Seq<char>,
    new_owner: String,
    later: ExecuteMsg,
)
    requires
        new_owner@ != s.owner,
        for_owner_only(later),
    ensures
        execute_model(s, contract, s.owner, (ExecuteMsg::ChangeContractOwner { new_owner })) is Ok,
        store_after(
            s,
            execute_model(s, contract, s.owner, (ExecuteMsg::ChangeContractOwner { new_owner })),
        ).owner == new_owner@,
        refused_with(
            execute_model(
                store_after(
                    s,
                    execute_model(
                        s,
                        contract,
                        s.owner,
                        (ExecuteMsg::ChangeContractOwner { new_owner }),
                    ),
                ),
                contract,
                s.owner,
                later,
            ),
            ContractErrorView::Unauthorized,
        ),
{
    let after = store_after(
        s,
        execute_model(s, contract, s.owner, ExecuteMsg::ChangeContractOwner { new_owner }),
    );
    law_owner_only(after, contract, s.owner, later);
}

/// The messages that rely on the guard: freezing, the two lists, and the
/// grants of the three roles.
pub open spec fn relies_on_guard(msg: ExecuteMsg) -> bool {
    msg is Freeze || msg is Blacklist || msg is Whitelist || msg is SetBlacklister
        || msg is SetWhitelister || msg is SetFreezer
}

/// While the guard is not active, what relies on it is refused: as
/// `GuardInactive` for whoever may send the message otherwise, and in any
/// case the store stays as it is.
pub proof fn law_guard_dependent(
    s: StateView,
    contract: Seq<char>,
    sender: Seq<char>,
    msg: ExecuteMsg,
)
    requires
        !s.guard_active(),
        relies_on_guard(msg),
    ensures
        execute_model(s, contract, sender, msg) is Err,
        store_after(s, execute_model(s, contract, sender, msg)) == s,
        sender == s.owner || !for_owner_only(msg) ==> refused_with(
            execute_model(s, contract, sender, msg),
            ContractErrorView::GuardInactive,
        ),
{
}

/// A role allows its one action and nothing else allows it: while the guard
/// is active, freezing is for freezers and the two lists are for the holders
/// of their roles, and anybody else is refused as `Unauthorized`, the owner
/// too.
pub proof fn law_role_only(s: StateView, contract: Seq<char>, sender: Seq<char>, msg: ExecuteMsg)
    requires
        s.guard_active(),
    ensures
        msg is Freeze ==> (execute_model(s, contract, sender, msg) is Ok <==> s.has_role(
            Role::Freezer,
            sender,
        )),
        msg is Blacklist ==> (execute_model(s, contract, sender, msg) is Ok <==> s.has_role(
            Role::Blacklister,
            sender,
        )),
        msg is Whitelist ==> (execute_model(s, contract, sender, msg) is Ok <==> s.has_role(
            Role::Whitelister,
            sender,
        )),
        (msg is Freeze || msg is Blacklist || msg is Whitelist) && execute_model(
            s,
            contract,
            sender,
            msg,
        ) is Err ==> refused_with(
            execute_model(s, contract, sender, msg),
            ContractErrorView::Unauthorized,
        ),
{
}

/// Allowances do not come back by themselves: whatever anybody but the
/// owner sends, nobody's allowance is greater afterwards.
pub proof fn law_allowances_grow_by_owner_only(
    s: StateView,
    contract: Seq<char>,
    sender: Seq<char>,
    msg: ExecuteMsg,
    kind: AllowanceKind,
    holder: Seq<char>,
)
    requires
        sender != s.owner,
    ensures
        store_after(s, execute_model(s, contract, sender, msg)).allowance(kind, holder)
            <= s.allowance(kind, holder),
{
}

/// Writing an allowance keeps a map of allowances finite and free of
/// zeros.
pub proof fn lemma_with_amount_wf(m: Map<Seq<char>, u128>, a: Seq<char>, v: u128)
    requires
        amounts_wf(m),
    ensures
        amounts_wf(with_amount(m, a, v)),
{
    if v == 0 {
        lemma_listable_remove(m, a);
    } else {
        lemma_listable_insert(m, a, v);
    }
}

/// Writing a flag keeps a map of flags finite and free of `false`.
pub proof fn lemma_with_flag_wf(m: Map<Seq<char>, bool>, a: Seq<char>, b: bool)
    requires
        flags_wf(m),
    ensures
        flags_wf(with_flag(m, a, b)),
{
    if b {
        lemma_listable_insert(m, a, true);
    } else {
        lemma_listable_remove(m, a);
    }
}

/// Absence stands for zero and for `false` in every store that the issuer
/// makes: in the one that `instantiate` makes, and after every message, reply
/// and migration on a store of which it holds.
pub proof fn law_absence_is_kept(
    s: StateView,
    contract: Seq<char>,
    sender: Seq<char>,
    init: InstantiateMsg,
    msg: ExecuteMsg,
    id: u64,
    outcome: Result<Option<Seq<u8>>, Seq<char>>,
)
    requires
        s.wf(),
    ensures
        instantiate_model(contract, sender, init).0.wf(),
        store_after(s, execute_model(s, contract, sender, msg)).wf(),
        store_after(s, reply_model(s, contract, id, outcome)).wf(),
        store_after(s, migrate_model(s)).wf(),
{
    lemma_listable_empty::<u128>();
    lemma_listable_empty::<bool>();
    match msg {
        ExecuteMsg::Mint { to_address, amount } => {
            let left = s.allowance(AllowanceKind::Mint, sender);
            if amount <= left {
                lemma_with_amount_wf(s.minter_allowances, sender, (left - amount) as u128);
            }
        },
        ExecuteMsg::Burn { from_address, amount } => {
            let left = s.allowance(AllowanceKind::Burn, sender);
            if amount <= left {
                lemma_with_amount_wf(s.burner_allowances, sender, (left - amount) as u128);
            }
        },
        ExecuteMsg::Blacklist { address, status } => {
            lemma_with_flag_wf(s.blacklisted_addresses, address@, status);
        },
        ExecuteMsg::Whitelist { address, status } => {
            lemma_with_flag_wf(s.whitelisted_addresses, address@, status);
        },
        ExecuteMsg::SetMinterAllowance { address, allowance } => {
            lemma_with_amount_wf(s.minter_allowances, address@, allowance);
        },
        ExecuteMsg::SetBurnerAllowance { address, allowance } => {
            lemma_with_amount_wf(s.burner_allowances, address@, allowance);
        },
        ExecuteMsg::SetBlacklister { address, status } => {
            lemma_with_flag_wf(s.blacklister_allowances, address@, status);
        },
        ExecuteMsg::SetWhitelister { address, status } => {
            lemma_with_flag_wf(s.whitelister_allowances, address@, status);
        },
        ExecuteMsg::SetFreezer { address, status } => {
            lemma_with_flag_wf(s.freezer_allowances, address@, status);
        },
        _ => {},
    }
}

/// A denom is set once: no message, reply or migration changes a denom that
/// the store holds.
pub proof fn law_denom_is_set_once(
    s: StateView,
    contract: Seq<char>,
    sender: Seq<char>,
    msg: ExecuteMsg,
    id: u64,
    outcome: Result<Option<Seq<u8>>, Seq<char>>,
)
    requires
        s.denom is Some,
    ensures
        store_after(s, execute_model(s, contract, sender, msg)).denom == s.denom,
        store_after(s, reply_model(s, contract, id, outcome)).denom == s.denom,
        store_after(s, migrate_model(s)).denom == s.denom,
{
}

} // verus!
