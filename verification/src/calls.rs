//! The operations of the vault as values, so that a law can speak of all of them.

use vstd::prelude::*;

use crate::admin::{
    add_token_after, init_after, init_refusal, protocol_fee_after, protocol_fee_refusal,
    recover_after, recover_refusal, remove_token_after, remove_token_refusal, rotate_after,
    rotate_refusal, set_grace_period_after, set_min_topup_after,
};
use crate::limits::{set_credit_limit_after, set_credit_limit_refusal};
use crate::merchant::{
    pause_merchant_after, refund_after, refund_refusal, unpause_merchant_after, withdraw_after,
    withdraw_refusal,
};
use crate::plans::{
    create_plan_after, create_plan_refusal, create_plan_with_token_refusal, first_version,
    migrate_after, migrate_refusal, set_plan_limit_after, set_plan_limit_refusal,
    subscribe_after, subscribe_refusal, update_plan_after, update_plan_refusal,
};
use crate::subscription::{
    cancel_after, cancel_refusal, charge_after, charge_refusal, cleanup_after, cleanup_refusal,
    create_after, create_in_default_token_after, create_in_default_token_refusal,
    create_refusal, deposit_after, deposit_refusal, partial_refund_after,
    partial_refund_refusal, pause_after, pause_refusal, payback_after, payback_refusal,
    resume_after, resume_refusal, usage_limits_after, usage_limits_refusal,
};
use crate::types::{Address, Error, MerchantConfig, RecoveryReason, UsageLimits};
use crate::vault::VaultState;

verus! {

/// An operation with its arguments.
pub enum Call {
    /// `do_init`
    Init { token: Address, decimals: u32, admin: Address, min_topup: i128, grace_period: u64 },
    /// `do_set_min_topup`
    SetMinTopup { admin: Address, min_topup: i128 },
    /// `do_set_grace_period`
    SetGracePeriod { admin: Address, grace_period: u64 },
    /// `add_accepted_token`
    AddToken { admin: Address, token: Address, decimals: u32 },
    /// `remove_accepted_token`
    RemoveToken { admin: Address, token: Address },
    /// `do_rotate_admin`
    RotateAdmin { admin: Address, new_admin: Address },
    /// `do_recover_stranded_funds`
    Recover {
        admin: Address,
        token: Address,
        recipient: Address,
        amount: i128,
        recovery_id: Seq<char>,
        reason: RecoveryReason,
        contract_balance: i128,
    },
    /// `set_protocol_fee`
    SetProtocolFee { admin: Address, treasury: Address, fee_bps: u32 },
    /// `pause_merchant`
    PauseMerchant { merchant: Address },
    /// `unpause_merchant`
    UnpauseMerchant { merchant: Address },
    /// `set_merchant_config`
    ConfigureMerchant { merchant: Address, config: MerchantConfig },
    /// `withdraw_merchant_funds_for_token`, and `withdraw_merchant_funds` with the default token
    WithdrawMerchant { merchant: Address, token: Address, amount: i128, vault_balance: i128 },
    /// `merchant_refund`
    RefundByMerchant { merchant: Address, subscriber: Address, token: Address, amount: i128 },
    /// `do_create_subscription`
    CreateInDefaultToken {
        subscriber: Address,
        merchant: Address,
        amount: i128,
        interval_seconds: u64,
        usage_enabled: bool,
        lifetime_cap: Option<i128>,
        expires_at: Option<u64>,
    },
    /// `do_create_subscription_with_token`
    Create {
        subscriber: Address,
        merchant: Address,
        token: Address,
        amount: i128,
        interval_seconds: u64,
        usage_enabled: bool,
        lifetime_cap: Option<i128>,
        expires_at: Option<u64>,
    },
    /// `do_deposit_funds`
    Deposit { subscription_id: u32, subscriber: Address, amount: i128 },
    /// `do_cancel_subscription`
    Cancel { subscription_id: u32, authorizer: Address },
    /// `do_pause_subscription`
    Pause { subscription_id: u32, authorizer: Address },
    /// `do_resume_subscription`
    Resume { subscription_id: u32, authorizer: Address },
    /// `do_charge_one_off`
    ChargeOneOff { subscription_id: u32, merchant: Address, amount: i128 },
    /// `do_cleanup_subscription`
    Cleanup { subscription_id: u32, authorizer: Address },
    /// `do_withdraw_subscriber_funds`
    WithdrawSubscriber { subscription_id: u32, subscriber: Address },
    /// `do_partial_refund`
    PartialRefund { admin: Address, subscription_id: u32, subscriber: Address, amount: i128 },
    /// `do_configure_usage_limits`
    ConfigureUsage { merchant: Address, subscription_id: u32, limits: UsageLimits },
    /// `do_create_plan_template`
    CreatePlan {
        merchant: Address,
        amount: i128,
        interval_seconds: u64,
        usage_enabled: bool,
        lifetime_cap: Option<i128>,
    },
    /// `do_create_plan_template_with_token`
    CreatePlanWithToken {
        merchant: Address,
        token: Address,
        amount: i128,
        interval_seconds: u64,
        usage_enabled: bool,
        lifetime_cap: Option<i128>,
    },
    /// `do_create_subscription_from_plan`
    Subscribe { subscriber: Address, plan_template_id: u32 },
    /// `do_update_plan_template`
    UpdatePlan {
        merchant: Address,
        plan_template_id: u32,
        amount: i128,
        interval_seconds: u64,
        usage_enabled: bool,
        lifetime_cap: Option<i128>,
    },
    /// `do_migrate_subscription_to_plan`
    Migrate { subscriber: Address, subscription_id: u32, new_plan_template_id: u32 },
    /// `do_set_plan_max_active_subs`
    SetPlanLimit { merchant: Address, plan_template_id: u32, max_active: u32 },
    /// `do_set_subscriber_credit_limit`
    SetCreditLimit { admin: Address, subscriber: Address, token: Address, limit: i128 },
}

/// Why a call is refused.
#[verifier::opaque]
pub open spec fn refusal(v: VaultState, call: Call) -> Option<Error> {
    match call {
        Call::Init { min_topup, .. } => init_refusal(v, min_topup),
        Call::SetMinTopup { admin, .. } => v.admin_refusal(admin),
        Call::SetGracePeriod { admin, .. } => v.admin_refusal(admin),
        Call::AddToken { admin, .. } => v.admin_refusal(admin),
        Call::RemoveToken { admin, token } => remove_token_refusal(v, admin, token),
        Call::RotateAdmin { admin, new_admin } => rotate_refusal(v, admin, new_admin),
        Call::Recover { admin, token, amount, recovery_id, contract_balance, .. } =>
            recover_refusal(v, admin, token, amount, recovery_id, contract_balance),
        Call::SetProtocolFee { admin, fee_bps, .. } => protocol_fee_refusal(v, admin, fee_bps),
        Call::PauseMerchant { .. } => None,
        Call::UnpauseMerchant { .. } => None,
        Call::ConfigureMerchant { .. } => None,
        Call::WithdrawMerchant { merchant, token, amount, vault_balance } => withdraw_refusal(
            v,
            merchant,
            token,
            amount,
            vault_balance,
        ),
        Call::RefundByMerchant { merchant, token, amount, .. } => refund_refusal(
            v,
            merchant,
            token,
            amount,
        ),
        Call::CreateInDefaultToken {
            subscriber,
            amount,
            interval_seconds,
            lifetime_cap,
            ..
        } => create_in_default_token_refusal(
            v,
            subscriber,
            amount,
            interval_seconds,
            lifetime_cap,
        ),
        Call::Create { subscriber, token, amount, interval_seconds, lifetime_cap, .. } =>
            create_refusal(v, subscriber, token, amount, interval_seconds, lifetime_cap),
        Call::Deposit { subscription_id, subscriber, amount } => deposit_refusal(
            v,
            subscription_id,
            subscriber,
            amount,
        ),
        Call::Cancel { subscription_id, authorizer } => cancel_refusal(
            v,
            subscription_id,
            authorizer,
        ),
        Call::Pause { subscription_id, authorizer } => pause_refusal(
            v,
            subscription_id,
            authorizer,
        ),
        Call::Resume { subscription_id, authorizer } => resume_refusal(
            v,
            subscription_id,
            authorizer,
        ),
        Call::ChargeOneOff { subscription_id, merchant, amount } => charge_refusal(
            v,
            subscription_id,
            merchant,
            amount,
        ),
        Call::Cleanup { subscription_id, .. } => cleanup_refusal(v, subscription_id),
        Call::WithdrawSubscriber { subscription_id, subscriber } => payback_refusal(
            v,
            subscription_id,
            subscriber,
        ),
        Call::PartialRefund { admin, subscription_id, subscriber, amount } =>
            partial_refund_refusal(v, admin, subscription_id, subscriber, amount),
        Call::ConfigureUsage { merchant, subscription_id, limits } => usage_limits_refusal(
            v,
            merchant,
            subscription_id,
            limits.usage_cap_units,
        ),
        Call::CreatePlan { lifetime_cap, .. } => create_plan_refusal(v, lifetime_cap),
        Call::CreatePlanWithToken { token, lifetime_cap, .. } => create_plan_with_token_refusal(
            v,
            token,
            lifetime_cap,
        ),
        Call::Subscribe { subscriber, plan_template_id } => subscribe_refusal(
            v,
            subscriber,
            plan_template_id,
        ),
        Call::UpdatePlan { merchant, plan_template_id, usage_enabled, lifetime_cap, .. } =>
            update_plan_refusal(v, merchant, plan_template_id, usage_enabled, lifetime_cap),
        Call::Migrate { subscriber, subscription_id, new_plan_template_id } => migrate_refusal(
            v,
            subscriber,
            subscription_id,
            new_plan_template_id,
        ),
        Call::SetPlanLimit { merchant, plan_template_id, .. } => set_plan_limit_refusal(
            v,
            merchant,
            plan_template_id,
        ),
        Call::SetCreditLimit { admin, limit, .. } => set_credit_limit_refusal(v, admin, limit),
    }
}

/// The vault after a call.
#[verifier::opaque]
pub open spec fn after(v: VaultState, call: Call) -> VaultState {
    match call {
        Call::Init { token, decimals, admin, min_topup, grace_period } => init_after(
            v,
            token,
            decimals,
            admin,
            min_topup,
            grace_period,
        ),
        Call::SetMinTopup { admin, min_topup } => set_min_topup_after(v, admin, min_topup),
        Call::SetGracePeriod { admin, grace_period } => set_grace_period_after(
            v,
            admin,
            grace_period,
        ),
        Call::AddToken { admin, token, decimals } => add_token_after(v, admin, token, decimals),
        Call::RemoveToken { admin, token } => remove_token_after(v, admin, token),
        Call::RotateAdmin { admin, new_admin } => rotate_after(v, admin, new_admin),
        Call::Recover {
            admin,
            token,
            recipient,
            amount,
            recovery_id,
            reason,
            contract_balance,
        } => recover_after(
            v,
            admin,
            token,
            recipient,
            amount,
            recovery_id,
            reason,
            contract_balance,
        ),
        Call::SetProtocolFee { admin, treasury, fee_bps } => protocol_fee_after(
            v,
            admin,
            treasury,
            fee_bps,
        ),
        Call::PauseMerchant { merchant } => pause_merchant_after(v, merchant),
        Call::UnpauseMerchant { merchant } => unpause_merchant_after(v, merchant),
        Call::ConfigureMerchant { merchant, config } => VaultState {
            merchant_configs: v.merchant_configs.insert(merchant, config),
            ..v.demand(merchant)
        },
        Call::WithdrawMerchant { merchant, token, amount, vault_balance } => withdraw_after(
            v,
            merchant,
            token,
            amount,
            vault_balance,
        ),
        Call::RefundByMerchant { merchant, subscriber, token, amount } => refund_after(
            v,
            merchant,
            subscriber,
            token,
            amount,
        ),
        Call::CreateInDefaultToken {
            subscriber,
            merchant,
            amount,
            interval_seconds,
            usage_enabled,
            lifetime_cap,
            expires_at,
        } => create_in_default_token_after(
            v,
            subscriber,
            merchant,
            amount,
            interval_seconds,
            usage_enabled,
            lifetime_cap,
            expires_at,
        ),
        Call::Create {
            subscriber,
            merchant,
            token,
            amount,
            interval_seconds,
            usage_enabled,
            lifetime_cap,
            expires_at,
        } => create_after(
            v,
            subscriber,
            merchant,
            token,
            amount,
            interval_seconds,
            usage_enabled,
            lifetime_cap,
            expires_at,
        ),
        Call::Deposit { subscription_id, subscriber, amount } => deposit_after(
            v,
            subscription_id,
            subscriber,
            amount,
        ),
        Call::Cancel { subscription_id, authorizer } => cancel_after(
            v,
            subscription_id,
            authorizer,
        ),
        Call::Pause { subscription_id, authorizer } => pause_after(v, subscription_id, authorizer),
        Call::Resume { subscription_id, authorizer } => resume_after(
            v,
            subscription_id,
            authorizer,
        ),
        Call::ChargeOneOff { subscription_id, merchant, amount } => charge_after(
            v,
            subscription_id,
            merchant,
            amount,
        ),
        Call::Cleanup { subscription_id, authorizer } => cleanup_after(
            v,
            subscription_id,
            authorizer,
        ),
        Call::WithdrawSubscriber { subscription_id, subscriber } => payback_after(
            v,
            subscription_id,
            subscriber,
        ),
        Call::PartialRefund { admin, subscription_id, subscriber, amount } => partial_refund_after(
            v,
            admin,
            subscription_id,
            subscriber,
            amount,
        ),
        Call::ConfigureUsage { merchant, subscription_id, limits } => usage_limits_after(
            v,
            merchant,
            subscription_id,
            limits,
        ),
        Call::CreatePlan {
            merchant,
            amount,
            interval_seconds,
            usage_enabled,
            lifetime_cap,
        } => if create_plan_refusal(v, lifetime_cap) is Some {
            v.demand(merchant)
        } else {
            create_plan_after(
                v,
                first_version(
                    v,
                    merchant,
                    v.token->0,
                    amount,
                    interval_seconds,
                    usage_enabled,
                    lifetime_cap,
                ),
            )
        },
        Call::CreatePlanWithToken {
            merchant,
            token,
            amount,
            interval_seconds,
            usage_enabled,
            lifetime_cap,
        } => if create_plan_with_token_refusal(v, token, lifetime_cap) is Some {
            v.demand(merchant)
        } else {
            create_plan_after(
                v,
                first_version(
                    v,
                    merchant,
                    token,
                    amount,
                    interval_seconds,
                    usage_enabled,
                    lifetime_cap,
                ),
            )
        },
        Call::Subscribe { subscriber, plan_template_id } => subscribe_after(
            v,
            subscriber,
            plan_template_id,
        ),
        Call::UpdatePlan {
            merchant,
            plan_template_id,
            amount,
            interval_seconds,
            usage_enabled,
            lifetime_cap,
        } => update_plan_after(
            v,
            merchant,
            plan_template_id,
            amount,
            interval_seconds,
            usage_enabled,
            lifetime_cap,
        ),
        Call::Migrate { subscriber, subscription_id, new_plan_template_id } => migrate_after(
            v,
            subscriber,
            subscription_id,
            new_plan_template_id,
        ),
        Call::SetPlanLimit { merchant, plan_template_id, max_active } => set_plan_limit_after(
            v,
            merchant,
            plan_template_id,
            max_active,
        ),
        Call::SetCreditLimit { admin, subscriber, token, limit } => set_credit_limit_after(
            v,
            admin,
            subscriber,
            token,
            limit,
        ),
    }
}

/// The vault when the next operation starts, at the given time.
pub open spec fn at_time(v: VaultState, now: u64) -> VaultState {
    VaultState { timestamp: now, actions: Seq::empty(), ..v }
}

/// The account whose authorization a call demands.
pub open spec fn signer(call: Call) -> Option<Address> {
    match call {
        Call::Init { .. } => None,
        Call::SetMinTopup { admin, .. } => Some(admin),
        Call::SetGracePeriod { admin, .. } => Some(admin),
        Call::AddToken { admin, .. } => Some(admin),
        Call::RemoveToken { admin, .. } => Some(admin),
        Call::RotateAdmin { admin, .. } => Some(admin),
        Call::Recover { admin, .. } => Some(admin),
        Call::SetProtocolFee { admin, .. } => Some(admin),
        Call::PauseMerchant { merchant } => Some(merchant),
        Call::UnpauseMerchant { merchant } => Some(merchant),
        Call::ConfigureMerchant { merchant, .. } => Some(merchant),
        Call::WithdrawMerchant { merchant, .. } => Some(merchant),
        Call::RefundByMerchant { merchant, .. } => Some(merchant),
        Call::CreateInDefaultToken { subscriber, .. } => Some(subscriber),
        Call::Create { subscriber, .. } => Some(subscriber),
        Call::Deposit { subscriber, .. } => Some(subscriber),
        Call::Cancel { authorizer, .. } => Some(authorizer),
        Call::Pause { authorizer, .. } => Some(authorizer),
        Call::Resume { authorizer, .. } => Some(authorizer),
        Call::ChargeOneOff { merchant, .. } => Some(merchant),
        Call::Cleanup { authorizer, .. } => Some(authorizer),
        Call::WithdrawSubscriber { subscriber, .. } => Some(subscriber),
        Call::PartialRefund { admin, .. } => Some(admin),
        Call::ConfigureUsage { merchant, .. } => Some(merchant),
        Call::CreatePlan { merchant, .. } => Some(merchant),
        Call::CreatePlanWithToken { merchant, .. } => Some(merchant),
        Call::Subscribe { subscriber, .. } => Some(subscriber),
        Call::UpdatePlan { merchant, .. } => Some(merchant),
        Call::Migrate { subscriber, .. } => Some(subscriber),
        Call::SetPlanLimit { merchant, .. } => Some(merchant),
        Call::SetCreditLimit { admin, .. } => Some(admin),
    }
}

/// Whether a call is reserved for the admin.
pub open spec fn admin_only(call: Call) -> bool {
    ||| call is SetMinTopup
    ||| call is SetGracePeriod
    ||| call is AddToken
    ||| call is RemoveToken
    ||| call is RotateAdmin
    ||| call is Recover
    ||| call is SetProtocolFee
    ||| call is PartialRefund
    ||| call is SetCreditLimit
}

/// Whether a call creates a subscription.
pub open spec fn opens_subscription(call: Call) -> bool {
    call is CreateInDefaultToken || call is Create || call is Subscribe
}

/// Whether a call adds a plan template.
pub open spec fn adds_plan(call: Call) -> bool {
    call is CreatePlan || call is CreatePlanWithToken || call is UpdatePlan
}

/// The subscription that a call names in order to change it.
pub open spec fn subscription_of(call: Call) -> Option<u32> {
    match call {
        Call::Deposit { subscription_id, .. } => Some(subscription_id),
        Call::Cancel { subscription_id, .. } => Some(subscription_id),
        Call::Pause { subscription_id, .. } => Some(subscription_id),
        Call::Resume { subscription_id, .. } => Some(subscription_id),
        Call::ChargeOneOff { subscription_id, .. } => Some(subscription_id),
        Call::Cleanup { subscription_id, .. } => Some(subscription_id),
        Call::WithdrawSubscriber { subscription_id, .. } => Some(subscription_id),
        Call::PartialRefund { subscription_id, .. } => Some(subscription_id),
        Call::Migrate { subscription_id, .. } => Some(subscription_id),
        _ => None,
    }
}

/// Whether `now` differs from `v` only in what the call is there to change.
pub open spec fn changes_only_its_part(v: VaultState, call: Call, now: VaultState) -> bool {
    &&& now.contract == v.contract
    &&& now.timestamp == v.timestamp
    &&& now.blocklist == v.blocklist
    &&& call is Init || now.token == v.token
    &&& call is Init || now.schema_version == v.schema_version
    &&& call is Init || call is RotateAdmin || now.admin == v.admin
    &&& call is Init || call is SetMinTopup || now.min_topup == v.min_topup
    &&& call is Init || call is SetGracePeriod || now.grace_period == v.grace_period
    &&& call is Init || call is AddToken || call is RemoveToken || now.accepted_tokens
        == v.accepted_tokens && now.token_decimals == v.token_decimals
    &&& call is SetProtocolFee || now.fee_bps == v.fee_bps && now.treasury == v.treasury
    &&& call is Recover || now.recoveries == v.recoveries
    &&& call is PauseMerchant || call is UnpauseMerchant || now.merchant_paused
        == v.merchant_paused
    &&& call is ConfigureMerchant || now.merchant_configs == v.merchant_configs
    &&& call is ConfigureUsage || now.usage_limits == v.usage_limits
    &&& call is SetPlanLimit || now.plan_limits == v.plan_limits
    &&& call is SetCreditLimit || now.credit_limits == v.credit_limits
    &&& opens_subscription(call) || now.next_id == v.next_id && now.merchant_subs
        == v.merchant_subs && now.token_subs == v.token_subs
    &&& adds_plan(call) || now.next_plan_id == v.next_plan_id && now.plans == v.plans
    &&& call is Subscribe || call is Migrate || now.subscription_plans == v.subscription_plans
    &&& call is WithdrawMerchant || call is RefundByMerchant || call is ChargeOneOff
        || now.merchant_balances == v.merchant_balances && now.merchant_earnings
        == v.merchant_earnings
    &&& call is ChargeOneOff || now.merchant_tokens == v.merchant_tokens && now.statements
        == v.statements && now.statement_counts == v.statement_counts
    &&& call is Deposit || call is WithdrawMerchant || call is WithdrawSubscriber
        || call is PartialRefund || now.total_accounted == v.total_accounted
    &&& opens_subscription(call) || subscription_of(call) is Some || now.subscriptions
        == v.subscriptions
    &&& forall|id: u32|
        subscription_of(call) != Some(id) && !(opens_subscription(call) && id == v.next_id)
            ==> #[trigger] now.subscription(id) == v.subscription(id)
}

} // verus!
