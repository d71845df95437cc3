//! A value-transfer ledger with an access-controlled highlighting registry.
//!
//! Callers pay into the ledger ([`tipper::Tipper`]) to record a tip — a
//! message plus a pizza quantity — addressed to a recipient.  An
//! operator-controlled registry ([`registry::HighlightedPizzas`]) promotes
//! individual tips or content items to a highlighted state, rejecting
//! duplicates and unauthorized callers.  The two modules communicate only
//! through a narrow, selector-addressed binary call interface
//! ([`protocol`]); [`system`] runs one ledger invocation end to end,
//! including the cross-module highlight call.

pub mod account;
pub mod codec;
pub mod errors;
pub mod events;
pub mod oracle;
pub mod protocol;
pub mod registry;
pub mod store;
pub mod system;
pub mod tipper;

pub use account::AccountId;
