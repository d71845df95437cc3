//! Domain events: fire-and-forget records appended, in order, to a
//! per-module event log when an operation succeeds.

use crate::account::AccountId;
use vstd::prelude::*;

verus! {

/// A tip was accepted and recorded by the ledger.
#[derive(Debug, Clone, Copy, PartialEq, Eq)]
pub struct PizzaSent {
    pub from: AccountId,
    pub to: AccountId,
    pub id: u32,
    pub pizzas: u32,
}

/// A content item was posted.
#[derive(Debug, Clone, Copy, PartialEq, Eq)]
pub struct ContentPosted {
    pub author: AccountId,
    pub id: u32,
}

/// The registry highlighted a tip.
#[derive(Debug, Clone, Copy, PartialEq, Eq)]
pub struct PizzaHighlighted {
    pub from: AccountId,
    pub to: AccountId,
    pub id: u32,
    pub pizzas: u32,
}

/// The registry highlighted a content item.
#[derive(Debug, Clone, Copy, PartialEq, Eq)]
pub struct ContentHighlighted {
    pub author: AccountId,
    pub id: u32,
}

/// The registry removed a highlight.
#[derive(Debug, Clone, Copy, PartialEq, Eq)]
pub struct HighlightRemoved {
    pub author: AccountId,
}

/// The price reference answered a query.
#[derive(Debug, Clone, Copy, PartialEq, Eq)]
pub struct OracleQueried {
    pub from: AccountId,
    pub query_id: u32,
}

/// An entry of the ledger's event log.
#[derive(Debug, Clone, Copy, PartialEq, Eq)]
pub enum TipperEvent {
    PizzaSent(PizzaSent),
    ContentPosted(ContentPosted),
}

/// An entry of the registry's event log.
#[derive(Debug, Clone, Copy, PartialEq, Eq)]
pub enum RegistryEvent {
    PizzaHighlighted(PizzaHighlighted),
    ContentHighlighted(ContentHighlighted),
    HighlightRemoved(HighlightRemoved),
}

} // verus!
