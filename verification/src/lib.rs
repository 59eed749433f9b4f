//! A vault for prepaid subscriptions: subscribers fund them in advance, merchants charge them
//! and withdraw what they earned, and an admin sets the rules.
//!
//! The operations are in [`admin`], [`merchant`], [`subscription`], [`plans`] and [`limits`].
//! What each of them is for is in [`promises`]. What holds of all of them is in [`laws`],
//! [`integrity`], [`conservation`], [`reconciliation`], [`journeys`], [`histories`] and
//! [`batches`].

pub mod accounting;
pub mod admin;
pub mod batches;
pub mod blocklist;
pub mod calls;
pub mod conservation;
pub mod events;
pub mod histories;
pub mod integrity;
pub mod journeys;
pub mod laws;
pub mod limits;
pub mod merchant;
pub mod plans;
pub mod promises;
pub mod queries;
pub mod reconciliation;
pub mod safe_math;
pub mod state_machine;
pub mod statements;
pub mod subscription;
pub mod table;
pub mod types;
pub mod vault;
