//! Plain data of the vault: addresses, errors, subscriptions, plans and event payloads.

use vstd::prelude::*;

verus! {

/// The identity of an account or of a contract: its kind and its 256-bit key.
#[derive(Clone, Copy, Debug, PartialEq, Eq, Structural)]
pub struct Address {
    /// True for a contract address, false for an account address.
    pub is_contract: bool,
    /// The upper half of the 256-bit key.
    pub key_high: u128,
    /// The lower half of the 256-bit key.
    pub key_low: u128,
}

/// An account together with a token, as balances and limits are kept for.
#[derive(Clone, Copy, Debug, PartialEq, Eq, Structural)]
pub struct AccountToken {
    pub account: Address,
    pub token: Address,
}

/// A billing statement row of a subscription.
#[derive(Clone, Copy, Debug, PartialEq, Eq, Structural)]
pub struct StatementId {
    pub subscription_id: u32,
    pub sequence: u32,
}

/// Maximum number of metadata keys per subscription.
pub const MAX_METADATA_KEYS: u32 = 10;
/// Maximum length of a metadata key in bytes.
pub const MAX_METADATA_KEY_LENGTH: u32 = 32;
/// Maximum length of a metadata value in bytes.
pub const MAX_METADATA_VALUE_LENGTH: u32 = 256;

/// Represents the lifecycle state of a subscription.
///
/// # State machine
///
/// - **Active**: charges can be processed.
///   - Can transition to: `Paused`, `Cancelled`, `InsufficientBalance`, `GracePeriod`, `Expired`
/// - **Paused**: temporarily suspended, no interval charges are processed.
///   - Can transition to: `Active`, `Cancelled`, `Expired`
/// - **Cancelled**: permanently terminated; it can only be archived.
///   - Can transition to: `Archived`
/// - **InsufficientBalance**: a charge failed for want of funds.
///   - Can transition to: `Active`, `Cancelled`, `Expired`
/// - **GracePeriod**: grace period after a missed charge.
///   - Can transition to: `Active`, `InsufficientBalance`, `Cancelled`, `Expired`
/// - **Expired**: past its expiration timestamp; it can only be archived.
///   - Can transition to: `Archived`
/// - **Archived**: kept for reading, terminal.
///   - No outgoing transitions
///
/// See [`crate::state_machine`].
#[derive(Clone, Copy, Debug, PartialEq, Eq, Structural)]
pub enum SubscriptionStatus {
    /// Subscription is active and ready for charging.
    Active,
    /// Subscription is temporarily paused, no charges processed.
    Paused,
    /// Subscription is permanently cancelled (terminal state).
    Cancelled,
    /// Subscription failed due to insufficient balance for charging.
    InsufficientBalance,
    /// Subscription is in grace period after a missed charge.
    GracePeriod,
    /// Subscription has automatically expired based on its expiration timestamp.
    Expired,
    /// Subscription is archived (reduced storage, read-only).
    Archived,
}

/// Stores subscription details and current state.
///
/// The `status` field is managed by the state machine (see [`crate::state_machine`]).
#[derive(Clone, Copy, Debug, PartialEq, Eq, Structural)]
pub struct Subscription {
    pub subscriber: Address,
    pub merchant: Address,
    /// Settlement token address used for all transfers on this subscription.
    pub token: Address,
    /// Recurring charge amount per billing interval (in token base units, e.g. stroops for USDC).
    pub amount: i128,
    /// Billing interval in seconds.
    pub interval_seconds: u64,
    pub last_payment_timestamp: u64,
    /// Current lifecycle state. Modified only through state machine transitions.
    pub status: SubscriptionStatus,
    /// Subscriber's prepaid balance held in escrow by the contract.
    pub prepaid_balance: i128,
    pub usage_enabled: bool,
    /// Optional maximum total amount (in token base units) that may ever be charged
    /// over the entire lifespan of this subscription. `None` means no cap.
    ///
    /// Units: same as `amount` (token base units, e.g. 1 USDC = 1_000_000 for 6 decimals).
    pub lifetime_cap: Option<i128>,
    /// Cumulative total of all amounts successfully charged so far.
    ///
    /// Incremented on every successful interval charge and usage charge.
    /// When `lifetime_cap` is `Some(cap)` and `lifetime_charged >= cap`, no
    /// further charges are processed and the subscription transitions to `Cancelled`.
    pub lifetime_charged: i128,
    /// The timestamp when the subscription started.
    pub start_time: u64,
    /// The timestamp when the subscription expires. `None` means no expiration.
    pub expires_at: Option<u64>,
    /// Timestamp when a grace-period started. `None` means not in grace period.
    pub grace_start_timestamp: Option<u64>,
}

impl Subscription {
    /// Whether the subscription has reached its expiration timestamp, if it has one.
    pub open spec fn expired_at(self, current_time: u64) -> bool {
        match self.expires_at {
            Some(exp) => current_time >= exp,
            None => false,
        }
    }

    pub fn is_expired(&self, current_time: u64) -> (expired: bool)
        ensures
            expired == self.expired_at(current_time),
    {
        if let Some(exp) = self.expires_at {
            current_time >= exp
        } else {
            false
        }
    }
}

/// Detailed error information for insufficient balance scenarios.
#[derive(Clone, Copy, Debug, PartialEq, Eq, Structural)]
pub struct InsufficientBalanceError {
    /// The current available prepaid balance in the subscription vault.
    pub available: i128,
    /// The required amount to complete the charge.
    pub required: i128,
}

impl InsufficientBalanceError {
    pub fn new(available: i128, required: i128) -> (error: Self)
        ensures
            error.available == available,
            error.required == required,
    {
        Self { available, required }
    }

    /// How much is missing: the required amount less the available balance.
    pub fn shortfall(&self) -> (missing: i128)
        requires
            i128::MIN <= self.required - self.available <= i128::MAX,
        ensures
            missing == self.required - self.available,
    {
        self.required - self.available
    }
}

/// Why an operation was refused.
#[derive(Clone, Copy, Debug, PartialEq, Eq, Structural)]
pub enum Error {
    // --- Auth Errors (401-403) ---
    /// Caller does not have the required authorization.
    Unauthorized,
    /// Caller is authorized but does not have permission for this specific action.
    Forbidden,
    /// Subscription has expired based on its expires_at timestamp.
    SubscriptionExpired,

    // --- Not Found (404) ---
    /// The requested resource was not found in storage.
    NotFound,

    // --- Invalid Input (400, 402) ---
    /// The requested state transition is not allowed by the state machine.
    InvalidStatusTransition,
    /// The top-up amount is below the minimum required threshold.
    BelowMinimumTopup,

    // --- Subscription limit (429) ---
    /// The contract has allocated the maximum number of subscriptions.
    SubscriptionLimitReached,

    // --- Business Logic Errors (1001-1018) ---
    /// Charge interval has not elapsed since the last payment.
    IntervalNotElapsed,
    /// Subscription is not in an active state for this operation.
    NotActive,
    /// Insufficient balance in the subscription vault.
    InsufficientBalance,
    /// Usage charging is not enabled for this subscription.
    UsageNotEnabled,
    /// Insufficient prepaid balance for the requested usage charge.
    InsufficientPrepaidBalance,
    /// The provided amount is zero or negative.
    InvalidAmount,
    /// Charge already processed for this billing period (replay protection).
    Replay,
    /// Invalid recovery amount provided.
    InvalidRecoveryAmount,
    /// Emergency stop is active - critical operations are blocked.
    EmergencyStopActive,
    /// Operation would result in a negative balance or underflow.
    Underflow,
    /// Recovery operation not allowed for this reason or context.
    RecoveryNotAllowed,
    /// Combined balance would overflow i128.
    Overflow,
    /// The contract or requested configuration is not initialized.
    NotInitialized,
    /// The requested export limit exceeds the maximum allowed.
    InvalidExportLimit,
    /// Invalid input provided to a function.
    InvalidInput,
    /// Reentrancy detected - function called recursively during execution.
    Reentrancy,
    /// Lifetime charge cap has been reached; no further charges are allowed.
    LifetimeCapReached,
    /// Contract is already initialized; init may only be called once.
    AlreadyInitialized,
    /// Merchant-wide pause is active for this subscription.
    MerchantPaused,

    // --- Metadata Errors (1023-1025) ---
    /// Metadata key limit reached for this subscription.
    MetadataKeyLimitReached,
    /// Metadata key exceeds maximum allowed length.
    MetadataKeyTooLong,
    /// Metadata value exceeds maximum allowed length.
    MetadataValueTooLong,

    // --- Blocklist (1026) ---
    /// Subscriber is on the blocklist and cannot create or interact with subscriptions.
    SubscriberBlocklisted,

    // --- Oracle Errors (1027-1030) ---
    /// Oracle pricing is enabled but no oracle is configured.
    OracleNotConfigured,
    /// Oracle returned an invalid or missing price payload.
    OraclePriceUnavailable,
    /// Oracle price is stale relative to configured max age.
    OraclePriceStale,
    /// Oracle returned a non-positive price.
    OraclePriceInvalid,

    // --- Subscription Plan / Credit (1031-1032) ---
    /// Subscriber has reached the maximum allowed number of active
    /// subscriptions for this plan.
    MaxConcurrentSubscriptionsReached,
    /// Subscriber's configured credit limit would be exceeded.
    CreditLimitExceeded,
    /// Usage rate limit exceeded for the current window.
    RateLimitExceeded,
    /// Usage charge would exceed the per-period cap.
    UsageCapExceeded,
    /// Usage charge attempted too soon after previous charge (burst protection).
    BurstLimitExceeded,
    /// Rotation to the same admin address is not allowed.
    SelfRotation,
    /// The provided new admin address is invalid.
    InvalidNewAdmin,
}

impl Error {
    /// The numeric code that stands for this error outside the vault.
    pub open spec fn code(self) -> u32 {
        match self {
            Error::NotFound => 404,
            Error::Unauthorized => 401,
            Error::Forbidden => 403,
            Error::SubscriptionExpired => 410,
            Error::IntervalNotElapsed => 1001,
            Error::NotActive => 1002,
            Error::InvalidStatusTransition => 400,
            Error::BelowMinimumTopup => 402,
            Error::Overflow => 1012,
            Error::Underflow => 1010,
            Error::InsufficientBalance => 1003,
            Error::InvalidAmount => 1006,
            Error::UsageNotEnabled => 1004,
            Error::InsufficientPrepaidBalance => 1005,
            Error::Replay => 1007,
            Error::InvalidRecoveryAmount => 1008,
            Error::EmergencyStopActive => 1009,
            Error::RecoveryNotAllowed => 1011,
            Error::InvalidInput => 1015,
            Error::NotInitialized => 1013,
            Error::InvalidExportLimit => 1014,
            Error::Reentrancy => 1016,
            Error::LifetimeCapReached => 1017,
            Error::AlreadyInitialized => 1018,
            Error::MerchantPaused => 1019,
            Error::MetadataKeyLimitReached => 1023,
            Error::MetadataKeyTooLong => 1024,
            Error::MetadataValueTooLong => 1025,
            Error::SubscriberBlocklisted => 1026,
            Error::OracleNotConfigured => 1027,
            Error::OraclePriceUnavailable => 1028,
            Error::OraclePriceStale => 1029,
            Error::OraclePriceInvalid => 1030,
            Error::SubscriptionLimitReached => 429,
            Error::MaxConcurrentSubscriptionsReached => 1031,
            Error::CreditLimitExceeded => 1032,
            Error::RateLimitExceeded => 1033,
            Error::UsageCapExceeded => 1034,
            Error::BurstLimitExceeded => 1035,
            Error::SelfRotation => 1036,
            Error::InvalidNewAdmin => 1037,
        }
    }

    /// Returns the numeric code for this error (for batch result reporting).
    pub fn to_code(self) -> (code: u32)
        ensures
            code == self.code(),
    {
        match self {
            Error::NotFound => 404,
            Error::Unauthorized => 401,
            Error::Forbidden => 403,
            Error::SubscriptionExpired => 410,
            Error::IntervalNotElapsed => 1001,
            Error::NotActive => 1002,
            Error::InvalidStatusTransition => 400,
            Error::BelowMinimumTopup => 402,
            Error::Overflow => 1012,
            Error::Underflow => 1010,
            Error::InsufficientBalance => 1003,
            Error::InvalidAmount => 1006,
            Error::UsageNotEnabled => 1004,
            Error::InsufficientPrepaidBalance => 1005,
            Error::Replay => 1007,
            Error::InvalidRecoveryAmount => 1008,
            Error::EmergencyStopActive => 1009,
            Error::RecoveryNotAllowed => 1011,
            Error::InvalidInput => 1015,
            Error::NotInitialized => 1013,
            Error::InvalidExportLimit => 1014,
            Error::Reentrancy => 1016,
            Error::LifetimeCapReached => 1017,
            Error::AlreadyInitialized => 1018,
            Error::MerchantPaused => 1019,
            Error::MetadataKeyLimitReached => 1023,
            Error::MetadataKeyTooLong => 1024,
            Error::MetadataValueTooLong => 1025,
            Error::SubscriberBlocklisted => 1026,
            Error::OracleNotConfigured => 1027,
            Error::OraclePriceUnavailable => 1028,
            Error::OraclePriceStale => 1029,
            Error::OraclePriceInvalid => 1030,
            Error::SubscriptionLimitReached => 429,
            Error::MaxConcurrentSubscriptionsReached => 1031,
            Error::CreditLimitExceeded => 1032,
            Error::RateLimitExceeded => 1033,
            Error::UsageCapExceeded => 1034,
            Error::BurstLimitExceeded => 1035,
            Error::SelfRotation => 1036,
            Error::InvalidNewAdmin => 1037,
        }
    }
}

/// No two errors share a code.
pub proof fn error_codes_are_distinct(a: Error, b: Error)
    requires
        a.code() == b.code(),
    ensures
        a == b,
{
}

/// Result of charging one subscription in a batch.
#[derive(Clone, Copy, Debug, PartialEq, Eq, Structural)]
pub struct BatchChargeResult {
    /// True if the charge succeeded.
    pub success: bool,
    /// If success is false, the error code; otherwise 0.
    pub error_code: u32,
}

/// Result of a batch merchant withdrawal operation.
#[derive(Clone, Copy, Debug, PartialEq, Eq, Structural)]
pub struct BatchWithdrawResult {
    pub success: bool,
    pub error_code: u32,
}

/// A read-only snapshot of the contract's configuration and current state.
#[derive(Clone, Copy, Debug, PartialEq, Eq, Structural)]
pub struct ContractSnapshot {
    pub admin: Address,
    pub token: Address,
    pub min_topup: i128,
    pub next_id: u32,
    pub storage_version: u32,
    pub timestamp: u64,
}

/// A summary of a subscription's current state, intended for migration or reporting.
#[derive(Clone, Copy, Debug, PartialEq, Eq, Structural)]
pub struct SubscriptionSummary {
    pub subscription_id: u32,
    pub subscriber: Address,
    pub merchant: Address,
    pub token: Address,
    pub amount: i128,
    pub interval_seconds: u64,
    pub last_payment_timestamp: u64,
    pub status: SubscriptionStatus,
    pub prepaid_balance: i128,
    pub usage_enabled: bool,
    pub lifetime_cap: Option<i128>,
    pub lifetime_charged: i128,
    pub start_time: u64,
    pub expires_at: Option<u64>,
}

/// Event emitted when subscriptions are exported for migration.
#[derive(Clone, Copy, Debug, PartialEq, Eq, Structural)]
pub struct MigrationExportEvent {
    pub admin: Address,
    pub start_id: u32,
    pub limit: u32,
    pub exported: u32,
    pub timestamp: u64,
}

/// Defines a reusable subscription plan template.
///
/// Plan templates allow merchants to define standard subscription offerings
/// with predefined parameters. Subscribers can create subscriptions from these
/// templates without manually specifying all parameters.
#[derive(Clone, Copy, Debug, PartialEq, Eq, Structural)]
pub struct PlanTemplate {
    /// Merchant who owns this plan template.
    pub merchant: Address,
    /// Settlement token used by subscriptions created from this plan.
    pub token: Address,
    /// Recurring charge amount per interval (token base units).
    pub amount: i128,
    /// Billing interval in seconds.
    pub interval_seconds: u64,
    /// Whether usage-based charging is enabled.
    pub usage_enabled: bool,
    /// Optional lifetime cap applied to subscriptions created from this template.
    ///
    /// When `Some(cap)`, subscriptions created via this template will inherit the cap.
    /// `None` means subscriptions created from this template have no lifetime cap.
    pub lifetime_cap: Option<i128>,
    /// Logical template group identifier.
    ///
    /// All versions of the same logical template share this value. The initial
    /// version of a template uses its own plan ID as the template key.
    pub template_key: u32,
    /// Monotonic version number within the template group (starts at 1).
    pub version: u32,
}

/// Result of computing next charge information for a subscription.
#[derive(Clone, Copy, Debug, PartialEq, Eq, Structural)]
pub struct NextChargeInfo {
    /// Estimated timestamp for the next charge attempt.
    pub next_charge_timestamp: u64,
    /// Whether a charge is actually expected based on the subscription status.
    pub is_charge_expected: bool,
}

/// View of a subscription's lifetime cap status.
///
/// Returned by `get_cap_info` for off-chain dashboards and UX displays.
#[derive(Clone, Copy, Debug, PartialEq, Eq, Structural)]
pub struct CapInfo {
    /// The configured lifetime cap, or `None` if no cap is set.
    pub lifetime_cap: Option<i128>,
    /// Total amount charged over the subscription's lifetime so far.
    pub lifetime_charged: i128,
    /// Remaining chargeable amount before cap is hit (`cap - charged`).
    /// `None` when no cap is configured.
    pub remaining_cap: Option<i128>,
    /// True when the cap has been reached and no further charges are allowed.
    pub cap_reached: bool,
}

/// Canonical charge category used for billing statement history.
#[derive(Clone, Copy, Debug, PartialEq, Eq, Structural)]
pub enum BillingChargeKind {
    Interval,
    Usage,
    OneOff,
}

/// Immutable billing statement row for a subscription charge action.
#[derive(Clone, Copy, Debug, PartialEq, Eq, Structural)]
pub struct BillingStatement {
    pub subscription_id: u32,
    /// Monotonic per-subscription sequence number (starts at 0).
    pub sequence: u32,
    /// Timestamp the charge operation was processed.
    pub charged_at: u64,
    /// Charge period start, in ledger timestamp seconds.
    pub period_start: u64,
    /// Charge period end, in ledger timestamp seconds.
    pub period_end: u64,
    /// Debited amount in token base units.
    pub amount: i128,
    pub merchant: Address,
    pub kind: BillingChargeKind,
}

/// Paginated page of billing statements.
#[derive(Clone, Debug)]
pub struct BillingStatementsPage {
    pub statements: Vec<BillingStatement>,
    /// Cursor for the next page. `None` means no more rows.
    pub next_cursor: Option<u32>,
    /// Total statements recorded for the subscription.
    pub total: u32,
}

/// Retention policy for billing statements.
#[derive(Clone, Copy, Debug, PartialEq, Eq, Structural)]
pub struct BillingRetentionConfig {
    /// Number of most-recent detailed rows to keep per subscription.
    pub keep_recent: u32,
}

/// Accrued totals by charge kind.
#[derive(Clone, Copy, Debug, PartialEq, Eq, Structural)]
pub struct AccruedTotals {
    /// Total from interval charges.
    pub interval: i128,
    /// Total from usage charges.
    pub usage: i128,
    /// Total from one-off charges.
    pub one_off: i128,
}

/// Merchant earnings by token.
#[derive(Clone, Copy, Debug, PartialEq, Eq, Structural)]
pub struct TokenEarnings {
    /// Accumulated earnings by charge kind.
    pub accruals: AccruedTotals,
    /// Total amount withdrawn by merchant.
    pub withdrawals: i128,
    /// Total amount refunded to subscribers.
    pub refunds: i128,
}

/// Token reconciliation snapshot for merchant.
#[derive(Clone, Copy, Debug, PartialEq, Eq, Structural)]
pub struct TokenReconciliationSnapshot {
    /// Token address.
    pub token: Address,
    /// Total accrued earnings from all charge kinds.
    pub total_accruals: i128,
    /// Total amount withdrawn.
    pub total_withdrawals: i128,
    /// Total amount refunded.
    pub total_refunds: i128,
    /// Computed balance: accruals - withdrawals - refunds.
    pub computed_balance: i128,
}

/// Aggregated compacted history for pruned rows.
#[derive(Clone, Copy, Debug, PartialEq, Eq, Structural)]
pub struct BillingStatementAggregate {
    pub pruned_count: u32,
    pub total_amount: i128,
    pub totals: AccruedTotals,
    pub oldest_period_start: Option<u64>,
    pub newest_period_end: Option<u64>,
}

/// Result of a compaction run.
#[derive(Clone, Copy, Debug, PartialEq, Eq, Structural)]
pub struct BillingCompactionSummary {
    pub subscription_id: u32,
    pub pruned_count: u32,
    pub kept_count: u32,
    pub total_pruned_amount: i128,
}

/// Event emitted when statement compaction executes.
///
/// `aggregate_*` fields mirror [`BillingStatementAggregate`] after this run so indexers can
/// verify on-chain totals without a follow-up `get_stmt_compacted_aggregate` call (optional).
#[derive(Clone, Copy, Debug, PartialEq, Eq, Structural)]
pub struct BillingCompactedEvent {
    pub admin: Address,
    pub subscription_id: u32,
    pub pruned_count: u32,
    pub kept_count: u32,
    pub total_pruned_amount: i128,
    pub timestamp: u64,
    pub aggregate_pruned_count: u32,
    pub aggregate_total_amount: i128,
    pub aggregate_oldest_period_start: Option<u64>,
    pub aggregate_newest_period_end: Option<u64>,
}

/// Optional oracle pricing configuration for cross-currency plans.
#[derive(Clone, Copy, Debug, PartialEq, Eq, Structural)]
pub struct OracleConfig {
    pub enabled: bool,
    pub oracle: Option<Address>,
    /// Maximum acceptable price age in seconds.
    pub max_age_seconds: u64,
}

/// Price payload returned by oracle contract view methods.
#[derive(Clone, Copy, Debug, PartialEq, Eq, Structural)]
pub struct OraclePrice {
    /// Quote units per 1 token.
    pub price: i128,
    /// Timestamp when quote was published by oracle.
    pub timestamp: u64,
}

/// Token registry entry.
#[derive(Clone, Copy, Debug, PartialEq, Eq, Structural)]
pub struct AcceptedToken {
    pub token: Address,
    pub decimals: u32,
}

/// Event emitted when emergency stop is enabled.
#[derive(Clone, Copy, Debug, PartialEq, Eq, Structural)]
pub struct EmergencyStopEnabledEvent {
    pub admin: Address,
    pub timestamp: u64,
}

/// Event emitted when admin is rotated to a new address.
#[derive(Clone, Copy, Debug, PartialEq, Eq, Structural)]
pub struct AdminRotatedEvent {
    pub old_admin: Address,
    pub new_admin: Address,
    pub timestamp: u64,
}

/// Event emitted when emergency stop is disabled.
#[derive(Clone, Copy, Debug, PartialEq, Eq, Structural)]
pub struct EmergencyStopDisabledEvent {
    pub admin: Address,
    pub timestamp: u64,
}

/// Event emitted when the protocol fee is configured.
#[derive(Clone, Copy, Debug, PartialEq, Eq, Structural)]
pub struct ProtocolFeeConfiguredEvent {
    pub admin: Address,
    /// Account that collects the fee.
    pub treasury: Address,
    /// Fee in basis points (0 = disabled).
    pub fee_bps: u32,
    pub timestamp: u64,
}

/// Represents the reason for stranded funds that can be recovered by admin.
#[derive(Clone, Copy, Debug, PartialEq, Eq, Structural)]
pub enum RecoveryReason {
    /// Overpayment by user, e.g. sending tokens directly to the contract.
    UserOverpayment,
    /// Transfer failed or stalled in an unexpected state.
    FailedTransfer,
    /// Escrow expired or subscription cancelled with unreachable user.
    ExpiredEscrow,
    /// System or logic correction.
    SystemCorrection,
}

/// Event emitted when admin recovers stranded funds.
#[derive(Clone, Copy, Debug, PartialEq, Eq, Structural)]
pub struct RecoveryEvent {
    pub admin: Address,
    pub recipient: Address,
    pub token: Address,
    pub amount: i128,
    pub reason: RecoveryReason,
    pub timestamp: u64,
}

/// Event emitted when the contract is initialized.
#[derive(Clone, Copy, Debug, PartialEq, Eq, Structural)]
pub struct ContractInitializedEvent {
    pub token: Address,
    pub admin: Address,
    pub min_topup: i128,
    pub grace_period: u64,
    pub timestamp: u64,
}

/// Event emitted when a subscription is created.
#[derive(Clone, Copy, Debug, PartialEq, Eq, Structural)]
pub struct SubscriptionCreatedEvent {
    pub subscription_id: u32,
    pub subscriber: Address,
    pub merchant: Address,
    /// Settlement token for this subscription.
    pub token: Address,
    pub amount: i128,
    pub interval_seconds: u64,
    pub lifetime_cap: Option<i128>,
    pub expires_at: Option<u64>,
}

/// Event emitted when funds are deposited into a subscription vault.
#[derive(Clone, Copy, Debug, PartialEq, Eq, Structural)]
pub struct FundsDepositedEvent {
    pub subscription_id: u32,
    pub subscriber: Address,
    pub amount: i128,
    pub prepaid_balance: i128,
}

/// Event emitted when a subscription interval charge succeeds.
#[derive(Clone, Copy, Debug, PartialEq, Eq, Structural)]
pub struct SubscriptionChargedEvent {
    pub subscription_id: u32,
    pub merchant: Address,
    /// Settlement token used for this charge.
    pub token: Address,
    /// Gross amount charged (before protocol fee deduction).
    pub amount: i128,
    /// Net amount credited to merchant (after protocol fee).
    pub merchant_amount: i128,
    /// Protocol fee amount (0 if no fee configured).
    pub fee_amount: i128,
    /// Subscriber's remaining prepaid balance after the charge.
    pub remaining_balance: i128,
    pub lifetime_charged: i128,
}

/// Event emitted when an interval charge attempt cannot be completed due to
/// insufficient prepaid balance.
#[derive(Clone, Copy, Debug, PartialEq, Eq, Structural)]
pub struct SubscriptionChargeFailedEvent {
    pub subscription_id: u32,
    pub merchant: Address,
    pub required_amount: i128,
    pub available_balance: i128,
    pub shortfall: i128,
    pub resulting_status: SubscriptionStatus,
    pub timestamp: u64,
}

/// Event emitted after a deposit when a previously underfunded subscription is
/// ready to be resumed.
#[derive(Clone, Copy, Debug, PartialEq, Eq, Structural)]
pub struct SubscriptionRecoveryReadyEvent {
    pub subscription_id: u32,
    pub subscriber: Address,
    pub prepaid_balance: i128,
    pub required_amount: i128,
    pub timestamp: u64,
}

/// Event emitted when a subscription is cancelled.
#[derive(Clone, Copy, Debug, PartialEq, Eq, Structural)]
pub struct SubscriptionCancelledEvent {
    pub subscription_id: u32,
    pub authorizer: Address,
    pub refund_amount: i128,
}

/// Event emitted when a subscription is paused.
#[derive(Clone, Copy, Debug, PartialEq, Eq, Structural)]
pub struct SubscriptionPausedEvent {
    pub subscription_id: u32,
    pub authorizer: Address,
}

/// Event emitted when a subscription is resumed.
#[derive(Clone, Copy, Debug, PartialEq, Eq, Structural)]
pub struct SubscriptionResumedEvent {
    pub subscription_id: u32,
    pub authorizer: Address,
}

/// Event emitted when a subscription is automatically expired.
#[derive(Clone, Copy, Debug, PartialEq, Eq, Structural)]
pub struct SubscriptionExpiredEvent {
    pub subscription_id: u32,
    pub timestamp: u64,
}

/// Event emitted when a subscription is archived.
#[derive(Clone, Copy, Debug, PartialEq, Eq, Structural)]
pub struct SubscriptionArchivedEvent {
    pub subscription_id: u32,
    pub timestamp: u64,
}

/// Event emitted when a merchant withdraws funds.
#[derive(Clone, Copy, Debug, PartialEq, Eq, Structural)]
pub struct MerchantWithdrawalEvent {
    pub merchant: Address,
    pub token: Address,
    pub amount: i128,
    pub remaining_balance: i128,
}

/// Event emitted when a subscriber withdraws funds after cancellation.
#[derive(Clone, Copy, Debug, PartialEq, Eq, Structural)]
pub struct SubscriberWithdrawalEvent {
    pub subscription_id: u32,
    pub subscriber: Address,
    /// Settlement token returned to the subscriber.
    pub token: Address,
    pub amount: i128,
    /// Ledger timestamp when the withdrawal was processed.
    pub timestamp: u64,
}

/// Event emitted when a merchant-initiated one-off charge is applied.
#[derive(Clone, Copy, Debug, PartialEq, Eq, Structural)]
pub struct OneOffChargedEvent {
    pub subscription_id: u32,
    pub merchant: Address,
    /// Settlement token used for this charge.
    pub token: Address,
    pub amount: i128,
    /// Subscriber's remaining prepaid balance after the charge.
    pub remaining_balance: i128,
    /// Ledger timestamp when the charge was applied.
    pub timestamp: u64,
}

/// Event emitted when the lifetime charge cap is reached.
///
/// Signals that the subscription has been cancelled because it has been charged
/// up to its configured maximum total amount.
#[derive(Clone, Copy, Debug, PartialEq, Eq, Structural)]
pub struct LifetimeCapReachedEvent {
    pub subscription_id: u32,
    /// The configured lifetime cap that was reached.
    pub lifetime_cap: i128,
    /// Total charged at the point the cap was reached.
    pub lifetime_charged: i128,
    /// Timestamp when the cap was reached.
    pub timestamp: u64,
}

/// Event emitted when metadata is set or updated on a subscription.
#[derive(Clone, Debug)]
pub struct MetadataSetEvent {
    pub subscription_id: u32,
    pub key: String,
    pub authorizer: Address,
}

/// Event emitted when metadata is deleted from a subscription.
#[derive(Clone, Debug)]
pub struct MetadataDeletedEvent {
    pub subscription_id: u32,
    pub key: String,
    pub authorizer: Address,
}

/// Event emitted when a plan template is created.
#[derive(Clone, Copy, Debug, PartialEq, Eq, Structural)]
pub struct PlanTemplateCreatedEvent {
    /// Newly allocated plan template ID.
    pub plan_template_id: u32,
    /// Merchant that created the plan.
    pub merchant: Address,
    /// Settlement token for subscriptions created from this plan.
    pub token: Address,
    /// Recurring charge amount per interval.
    pub amount: i128,
    /// Billing interval in seconds.
    pub interval_seconds: u64,
    /// Whether usage-based charging is enabled.
    pub usage_enabled: bool,
    /// Optional lifetime cap.
    pub lifetime_cap: Option<i128>,
    /// Ledger timestamp when the plan was created.
    pub timestamp: u64,
}

/// Event emitted when a plan template is updated to a new version.
#[derive(Clone, Copy, Debug, PartialEq, Eq, Structural)]
pub struct PlanTemplateUpdatedEvent {
    /// Logical template group identifier shared by all versions.
    pub template_key: u32,
    /// Previous plan template ID.
    pub old_plan_id: u32,
    /// Newly created plan template ID representing the updated version.
    pub new_plan_id: u32,
    /// Version number of the new plan template.
    pub version: u32,
    /// Merchant that owns this plan template.
    pub merchant: Address,
    /// Timestamp when the update occurred.
    pub timestamp: u64,
}

/// Event emitted when a plan's max-active-subscriptions limit is configured.
///
/// A `max_active` value of `0` means "no limit enforced".
#[derive(Clone, Copy, Debug, PartialEq, Eq, Structural)]
pub struct PlanMaxActiveUpdatedEvent {
    /// Plan template whose limit was changed.
    pub plan_template_id: u32,
    /// Merchant that owns the plan and authorized the change.
    pub merchant: Address,
    /// New limit value (`0` = unlimited).
    pub max_active: u32,
    /// Ledger timestamp when the change was applied.
    pub timestamp: u64,
}

/// Event emitted when a subscription is migrated from one plan template
/// version to another.
#[derive(Clone, Copy, Debug, PartialEq, Eq, Structural)]
pub struct SubscriptionMigratedEvent {
    pub subscription_id: u32,
    /// Logical template group identifier shared by all versions.
    pub template_key: u32,
    /// Plan template ID the subscription was previously pinned to.
    pub from_plan_id: u32,
    /// Plan template ID the subscription is now pinned to.
    pub to_plan_id: u32,
    /// Merchant that owns the plan templates.
    pub merchant: Address,
    /// Subscriber that authorized the migration.
    pub subscriber: Address,
    /// Timestamp when the migration occurred.
    pub timestamp: u64,
}

/// Event emitted when a usage statement is logged.
#[derive(Clone, Debug)]
pub struct UsageStatementEvent {
    pub subscription_id: u32,
    pub merchant: Address,
    pub usage_amount: i128,
    pub token: Address,
    /// Subscriber's remaining prepaid balance after the usage charge.
    pub remaining_balance: i128,
    pub timestamp: u64,
    pub reference: String,
}

#[derive(Clone, Copy, Debug, PartialEq, Eq, Structural)]
pub enum ChargeExecutionResult {
    Charged,
    InsufficientBalance,
}

#[derive(Clone, Copy, Debug, PartialEq, Eq, Structural)]
pub struct UsageLimits {
    pub rate_limit_max_calls: Option<u32>,
    pub rate_window_secs: u64,
    pub burst_min_interval_secs: u64,
    pub usage_cap_units: Option<i128>,
}

#[derive(Clone, Copy, Debug, PartialEq, Eq, Structural)]
pub struct UsageState {
    pub last_usage_timestamp: u64,
    pub window_start_timestamp: u64,
    pub window_call_count: u32,
    pub current_period_usage_units: i128,
    pub period_index: u64,
}

/// Event emitted when a partial refund is processed for a subscription.
#[derive(Clone, Copy, Debug, PartialEq, Eq, Structural)]
pub struct PartialRefundEvent {
    /// Subscription receiving the refund.
    pub subscription_id: u32,
    /// Subscriber who receives the refunded amount.
    pub subscriber: Address,
    /// Settlement token returned to the subscriber.
    pub token: Address,
    /// Amount refunded in token base units.
    pub amount: i128,
    /// Subscriber's remaining prepaid balance after the refund.
    pub remaining_balance: i128,
    /// Ledger timestamp when the refund was processed.
    pub timestamp: u64,
}

#[derive(Debug)]
pub struct MerchantConfig {
    pub fee_address: Option<Address>,
    pub redirect_url: String, // e.g., for off-chain success callbacks
    pub is_paused: bool,      // Global pause for all merchant plans
}

impl Clone for MerchantConfig {
    fn clone(&self) -> (copy: Self)
        ensures
            copy == *self,
    {
        MerchantConfig {
            fee_address: self.fee_address,
            redirect_url: self.redirect_url.clone(),
            is_paused: self.is_paused,
        }
    }
}

impl PartialEq for MerchantConfig {
    fn eq(&self, other: &Self) -> (equal: bool) {
        self.fee_address == other.fee_address && self.redirect_url == other.redirect_url
            && self.is_paused == other.is_paused
    }
}

impl vstd::std_specs::cmp::PartialEqSpecImpl for MerchantConfig {
    open spec fn obeys_eq_spec() -> bool {
        true
    }

    open spec fn eq_spec(&self, other: &Self) -> bool {
        &&& self.fee_address == other.fee_address
        &&& self.redirect_url@ == other.redirect_url@
        &&& self.is_paused == other.is_paused
    }
}

/// Event emitted when a merchant enables their blanket pause.
#[derive(Clone, Copy, Debug, PartialEq, Eq, Structural)]
pub struct MerchantPausedEvent {
    pub merchant: Address,
    pub timestamp: u64,
}

/// Event emitted when a merchant disables their blanket pause.
#[derive(Clone, Copy, Debug, PartialEq, Eq, Structural)]
pub struct MerchantUnpausedEvent {
    pub merchant: Address,
    pub timestamp: u64,
}

#[derive(Clone, Copy, Debug, PartialEq, Eq, Structural)]
pub struct MerchantRefundEvent {
    pub merchant: Address,
    pub subscriber: Address,
    pub token: Address,
    pub amount: i128,
}

} // verus!
