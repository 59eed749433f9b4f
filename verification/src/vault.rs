//! The vault: everything it stores, where and when it runs, and what the running
//! operation asks of the outside world.
//!
//! An operation works on a [`Vault`] in memory. Where it returns `Ok`, whoever runs it
//! stores the new state first, so that no other contract is called while the old state is
//! still in store, and then performs the collected [`Action`]s in order. If one of them
//! fails, the stored state is undone with the rest. Where the operation is refused, only
//! the authorizations are demanded ([`Vault::demands`]), and the new state is dropped.

use vstd::prelude::*;

use crate::events::{
    demanded_by, demands_of, events_of, published_by, Action, Event, Transfer,
};
use crate::table::Table;
use crate::types::{
    AccountToken, Address, BillingStatement, MerchantConfig, PlanTemplate, StatementId,
    Subscription, TokenEarnings, UsageLimits,
};

verus! {

/// The state of a vault as plain mathematics.
#[verifier::ext_equal]
pub struct VaultState {
    /// The address of the vault itself.
    pub contract: Address,
    /// The time at which the operation runs.
    pub timestamp: u64,
    pub token: Option<Address>,
    pub admin: Option<Address>,
    pub min_topup: Option<i128>,
    pub grace_period: Option<u64>,
    pub schema_version: Option<u32>,
    pub fee_bps: Option<u32>,
    pub treasury: Option<Address>,
    pub accepted_tokens: Seq<Address>,
    pub token_decimals: Map<Address, u32>,
    pub next_id: u32,
    pub next_plan_id: u32,
    pub subscriptions: Map<u32, Subscription>,
    pub plans: Map<u32, PlanTemplate>,
    pub subscription_plans: Map<u32, u32>,
    pub plan_limits: Map<u32, u32>,
    pub credit_limits: Map<AccountToken, i128>,
    pub merchant_subs: Map<Address, Seq<u32>>,
    pub token_subs: Map<Address, Seq<u32>>,
    pub usage_limits: Map<u32, UsageLimits>,
    pub merchant_paused: Map<Address, bool>,
    pub merchant_configs: Map<Address, MerchantConfig>,
    pub merchant_balances: Map<AccountToken, i128>,
    pub merchant_earnings: Map<AccountToken, TokenEarnings>,
    pub merchant_tokens: Map<Address, Seq<Address>>,
    pub blocklist: Map<Address, bool>,
    pub total_accounted: Map<Address, i128>,
    pub statements: Map<StatementId, BillingStatement>,
    pub statement_counts: Map<u32, u32>,
    pub recoveries: Set<Seq<char>>,
    pub actions: Seq<Action>,
}

/// The value that `map` holds for `key`, or `default` if it holds none.
pub open spec fn value_or<K, V>(map: Map<K, V>, key: K, default: V) -> V {
    if map.contains_key(key) {
        map[key]
    } else {
        default
    }
}

/// The value that `map` holds for `key`, if it holds one.
pub open spec fn lookup<K, V>(map: Map<K, V>, key: K) -> Option<V> {
    if map.contains_key(key) {
        Some(map[key])
    } else {
        None
    }
}

/// `map` with `item` added at the end of the list kept for `key`.
pub open spec fn append_to<K, T>(map: Map<K, Seq<T>>, key: K, item: T) -> Map<K, Seq<T>> {
    map.insert(key, value_or(map, key, Seq::empty()).push(item))
}

impl VaultState {
    /// The vault after demanding that `account` has authorized the operation.
    pub open spec fn demand(self, account: Address) -> VaultState {
        VaultState { actions: self.actions.push(Action::RequireAuth(account)), ..self }
    }

    /// The vault after publishing `event`.
    pub open spec fn publish(self, event: Event) -> VaultState {
        VaultState { actions: self.actions.push(Action::Publish(event)), ..self }
    }

    /// The vault after asking for a transfer of tokens.
    pub open spec fn transfer(
        self,
        token: Address,
        from: Address,
        to: Address,
        amount: i128,
    ) -> VaultState {
        VaultState {
            actions: self.actions.push(Action::Transfer(Transfer { token, from, to, amount })),
            ..self
        }
    }

    /// The vault after storing `subscription` under `id`.
    pub open spec fn put_subscription(self, id: u32, subscription: Subscription) -> VaultState {
        VaultState { subscriptions: self.subscriptions.insert(id, subscription), ..self }
    }

    /// The events published so far.
    pub open spec fn events(self) -> Seq<Event> {
        events_of(self.actions)
    }

    /// The accounts whose authorization has been demanded so far.
    pub open spec fn demands(self) -> Seq<Address> {
        demands_of(self.actions)
    }

    /// The subscription stored under `id`, if there is one.
    pub open spec fn subscription(self, id: u32) -> Option<Subscription> {
        lookup(self.subscriptions, id)
    }
}

/// Everything that a vault stores, and the context of the operation that runs on it.
#[derive(Debug)]
pub struct Vault {
    /// The address of the vault itself.
    pub contract: Address,
    /// The time at which the operation runs, in seconds.
    pub timestamp: u64,
    /// The default settlement token.
    pub token: Option<Address>,
    pub admin: Option<Address>,
    /// The smallest deposit.
    pub min_topup: Option<i128>,
    pub grace_period: Option<u64>,
    pub schema_version: Option<u32>,
    /// The protocol fee in basis points.
    pub fee_bps: Option<u32>,
    /// The account that collects the protocol fee.
    pub treasury: Option<Address>,
    /// The accepted tokens in the order in which they were accepted.
    pub accepted_tokens: Vec<Address>,
    /// The decimals of each accepted token.
    pub token_decimals: Table<Address, u32>,
    /// The ID of the next subscription.
    pub next_id: u32,
    /// The ID of the next plan template.
    pub next_plan_id: u32,
    pub subscriptions: Table<u32, Subscription>,
    pub plans: Table<u32, PlanTemplate>,
    /// The plan template to which a subscription is pinned.
    pub subscription_plans: Table<u32, u32>,
    /// How many active subscriptions one subscriber may have on a plan template.
    pub plan_limits: Table<u32, u32>,
    /// The credit limit of a subscriber for a token.
    pub credit_limits: Table<AccountToken, i128>,
    /// The subscriptions of each merchant.
    pub merchant_subs: Table<Address, Vec<u32>>,
    /// The subscriptions settled in each token.
    pub token_subs: Table<Address, Vec<u32>>,
    pub usage_limits: Table<u32, UsageLimits>,
    pub merchant_paused: Table<Address, bool>,
    pub merchant_configs: Table<Address, MerchantConfig>,
    /// What a merchant can withdraw of a token.
    pub merchant_balances: Table<AccountToken, i128>,
    /// What a merchant earned, withdrew and refunded of a token.
    pub merchant_earnings: Table<AccountToken, TokenEarnings>,
    /// The tokens in which each merchant has earned.
    pub merchant_tokens: Table<Address, Vec<Address>>,
    pub blocklist: Table<Address, bool>,
    /// The part of the vault's holdings of each token that belongs to someone.
    pub total_accounted: Table<Address, i128>,
    pub statements: Table<StatementId, BillingStatement>,
    /// The number of statements of each subscription.
    pub statement_counts: Table<u32, u32>,
    /// The IDs of the recoveries that have been executed.
    pub recoveries: Vec<String>,
    /// What the running operation asks of the outside world, in order.
    pub actions: Vec<Action>,
}

/// The lists of a table as sequences.
pub open spec fn list_views<K, T>(map: Map<K, Vec<T>>) -> Map<K, Seq<T>> {
    map.map_values(|list: Vec<T>| list@)
}

/// The texts in a list.
pub open spec fn texts(list: Seq<String>) -> Set<Seq<char>> {
    list.map_values(|text: String| text@).to_set()
}

impl View for Vault {
    type V = VaultState;

    open spec fn view(&self) -> VaultState {
        VaultState {
            contract: self.contract,
            timestamp: self.timestamp,
            token: self.token,
            admin: self.admin,
            min_topup: self.min_topup,
            grace_period: self.grace_period,
            schema_version: self.schema_version,
            fee_bps: self.fee_bps,
            treasury: self.treasury,
            accepted_tokens: self.accepted_tokens@,
            token_decimals: self.token_decimals@,
            next_id: self.next_id,
            next_plan_id: self.next_plan_id,
            subscriptions: self.subscriptions@,
            plans: self.plans@,
            subscription_plans: self.subscription_plans@,
            plan_limits: self.plan_limits@,
            credit_limits: self.credit_limits@,
            merchant_subs: list_views(self.merchant_subs@),
            token_subs: list_views(self.token_subs@),
            usage_limits: self.usage_limits@,
            merchant_paused: self.merchant_paused@,
            merchant_configs: self.merchant_configs@,
            merchant_balances: self.merchant_balances@,
            merchant_earnings: self.merchant_earnings@,
            merchant_tokens: list_views(self.merchant_tokens@),
            blocklist: self.blocklist@,
            total_accounted: self.total_accounted@,
            statements: self.statements@,
            statement_counts: self.statement_counts@,
            recoveries: texts(self.recoveries@),
            actions: self.actions@,
        }
    }
}

/// A vault in which nothing is stored yet.
pub open spec fn empty_vault(contract: Address, timestamp: u64) -> VaultState {
    VaultState {
        contract,
        timestamp,
        token: None,
        admin: None,
        min_topup: None,
        grace_period: None,
        schema_version: None,
        fee_bps: None,
        treasury: None,
        accepted_tokens: Seq::empty(),
        token_decimals: Map::empty(),
        next_id: 0,
        next_plan_id: 0,
        subscriptions: Map::empty(),
        plans: Map::empty(),
        subscription_plans: Map::empty(),
        plan_limits: Map::empty(),
        credit_limits: Map::empty(),
        merchant_subs: Map::empty(),
        token_subs: Map::empty(),
        usage_limits: Map::empty(),
        merchant_paused: Map::empty(),
        merchant_configs: Map::empty(),
        merchant_balances: Map::empty(),
        merchant_earnings: Map::empty(),
        merchant_tokens: Map::empty(),
        blocklist: Map::empty(),
        total_accounted: Map::empty(),
        statements: Map::empty(),
        statement_counts: Map::empty(),
        recoveries: Set::empty(),
        actions: Seq::empty(),
    }
}

/// A copy of a list of plain items.
pub fn copy_list<T: Copy>(list: &Vec<T>) -> (copy: Vec<T>)
    ensures
        copy@ == list@,
{
    let mut copy: Vec<T> = Vec::new();
    let mut i: usize = 0;
    while i < list.len()
        invariant
            i <= list@.len(),
            copy@ == list@.take(i as int),
        decreases list@.len() - i,
    {
        copy.push(list[i]);
        i = i + 1;
        assert(copy@ =~= list@.take(i as int));
    }
    assert(list@.take(i as int) =~= list@);
    copy
}

/// Adds `item` at the end of the list that `table` keeps for `key`.
fn append_item<T: Copy>(table: &mut Table<Address, Vec<T>>, key: Address, item: T)
    ensures
        list_views(final(table)@) == append_to(list_views(old(table)@), key, item),
{
    let mut list: Vec<T> = match table.get(key) {
        Some(list) => copy_list(list),
        None => Vec::new(),
    };
    list.push(item);
    let ghost stored = list@;
    table.set(key, list);
    proof {
        let before = list_views(old(table)@);
        assert(stored =~= value_or(before, key, Seq::empty()).push(item));
        assert(list_views(table@) =~= append_to(before, key, item));
    }
}

impl Vault {
    /// A vault at `contract` in which nothing is stored yet.
    pub fn new(contract: Address, timestamp: u64) -> (vault: Vault)
        ensures
            vault@ == empty_vault(contract, timestamp),
    {
        let vault = Vault {
            contract,
            timestamp,
            token: None,
            admin: None,
            min_topup: None,
            grace_period: None,
            schema_version: None,
            fee_bps: None,
            treasury: None,
            accepted_tokens: Vec::new(),
            token_decimals: Table::new(),
            next_id: 0,
            next_plan_id: 0,
            subscriptions: Table::new(),
            plans: Table::new(),
            subscription_plans: Table::new(),
            plan_limits: Table::new(),
            credit_limits: Table::new(),
            merchant_subs: Table::new(),
            token_subs: Table::new(),
            usage_limits: Table::new(),
            merchant_paused: Table::new(),
            merchant_configs: Table::new(),
            merchant_balances: Table::new(),
            merchant_earnings: Table::new(),
            merchant_tokens: Table::new(),
            blocklist: Table::new(),
            total_accounted: Table::new(),
            statements: Table::new(),
            statement_counts: Table::new(),
            recoveries: Vec::new(),
            actions: Vec::new(),
        };
        proof {
            assert(list_views(vault.merchant_subs@) =~= Map::<Address, Seq<u32>>::empty());
            assert(list_views(vault.token_subs@) =~= Map::<Address, Seq<u32>>::empty());
            assert(list_views(vault.merchant_tokens@) =~= Map::<Address, Seq<Address>>::empty());
            assert(texts(vault.recoveries@) =~= Set::<Seq<char>>::empty());
            assert(vault@ =~= empty_vault(contract, timestamp));
        }
        vault
    }

    /// Demands that `account` has authorized the operation.
    pub fn require_auth(&mut self, account: Address)
        ensures
            final(self)@ == old(self)@.demand(account),
    {
        self.actions.push(Action::RequireAuth(account));
    }

    /// Publishes `event`.
    pub fn publish(&mut self, event: Event)
        ensures
            final(self)@ == old(self)@.publish(event),
    {
        self.actions.push(Action::Publish(event));
    }

    /// Asks for a transfer of tokens.
    pub fn transfer(&mut self, token: Address, from: Address, to: Address, amount: i128)
        ensures
            final(self)@ == old(self)@.transfer(token, from, to, amount),
    {
        self.actions.push(Action::Transfer(Transfer { token, from, to, amount }));
    }

    /// Stores `subscription` under `id`.
    pub fn put_subscription(&mut self, id: u32, subscription: Subscription)
        ensures
            final(self)@ == old(self)@.put_subscription(id, subscription),
    {
        self.subscriptions.set(id, subscription);
    }

    /// Adds `id` to the subscriptions of `merchant`.
    pub fn index_by_merchant(&mut self, merchant: Address, id: u32)
        ensures
            final(self)@ == (VaultState {
                merchant_subs: append_to(old(self)@.merchant_subs, merchant, id),
                ..old(self)@
            }),
    {
        append_item(&mut self.merchant_subs, merchant, id);
    }

    /// Adds `id` to the subscriptions settled in `token`.
    pub fn index_by_token(&mut self, token: Address, id: u32)
        ensures
            final(self)@ == (VaultState {
                token_subs: append_to(old(self)@.token_subs, token, id),
                ..old(self)@
            }),
    {
        append_item(&mut self.token_subs, token, id);
    }

    /// The events published so far, in order.
    pub fn events(&self) -> (events: Vec<Event>)
        ensures
            events@ == self@.events(),
    {
        let mut events: Vec<Event> = Vec::new();
        let ghost select = |action: Action| published_by(action);
        let mut i: usize = 0;
        assert(self.actions@.take(0).filter_map(select) =~= Seq::<Event>::empty()) by {
            reveal(Seq::filter_map);
        }
        while i < self.actions.len()
            invariant
                i <= self.actions@.len(),
                select == (|action: Action| published_by(action)),
                events@ == self.actions@.take(i as int).filter_map(select),
            decreases self.actions@.len() - i,
        {
            proof {
                self.actions@.lemma_filter_map_take_succ(select, i as int);
            }
            if let Action::Publish(event) = self.actions[i] {
                events.push(event);
            }
            i = i + 1;
            assert(events@ =~= self.actions@.take(i as int).filter_map(select));
        }
        assert(self.actions@.take(i as int) =~= self.actions@);
        events
    }

    /// The accounts whose authorization has been demanded so far, in order.
    pub fn demands(&self) -> (accounts: Vec<Address>)
        ensures
            accounts@ == self@.demands(),
    {
        let mut accounts: Vec<Address> = Vec::new();
        let ghost select = |action: Action| demanded_by(action);
        let mut i: usize = 0;
        assert(self.actions@.take(0).filter_map(select) =~= Seq::<Address>::empty()) by {
            reveal(Seq::filter_map);
        }
        while i < self.actions.len()
            invariant
                i <= self.actions@.len(),
                select == (|action: Action| demanded_by(action)),
                accounts@ == self.actions@.take(i as int).filter_map(select),
            decreases self.actions@.len() - i,
        {
            proof {
                self.actions@.lemma_filter_map_take_succ(select, i as int);
            }
            if let Action::RequireAuth(account) = self.actions[i] {
                accounts.push(account);
            }
            i = i + 1;
            assert(accounts@ =~= self.actions@.take(i as int).filter_map(select));
        }
        assert(self.actions@.take(i as int) =~= self.actions@);
        accounts
    }
}

} // verus!
