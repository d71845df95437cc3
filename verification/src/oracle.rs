//! The price reference: a read-only lookup of price records by id.
//!
//! The ledger's design names this module as a collaborator but works from a
//! fixed per-unit price instead of querying it live; the reference is kept
//! at interface level, and how its records would be maintained is out of
//! scope.

use crate::account::AccountId;
use vstd::prelude::*;

verus! {

/// A price record: a quoted price and the quote's confidence.
#[derive(Debug, Clone, Copy, PartialEq, Eq, Structural)]
pub struct PizzaPrice {
    pub confidence: u64,
    pub current_pizza_price: u128,
}

/// The record the sequence of entries holds for `id`: the first match wins.
pub open spec fn price_at(s: Seq<(u32, PizzaPrice)>, id: u32) -> Option<PizzaPrice>
    decreases s.len(),
{
    if s.len() == 0 {
        None
    } else if s.first().0 == id {
        Some(s.first().1)
    } else {
        price_at(s.drop_first(), id)
    }
}

/// The price reference's state.
pub struct PizzaOracle {
    /// The identity the reference was last queried by, when tracked.
    pub caller: Option<AccountId>,
    /// Whether construction has run.
    pub is_init: bool,
    /// The ledger's address, when wired in.
    pub pizza_tipper_id: Option<AccountId>,
    /// The price records, keyed by query id.
    pub price_map: Vec<(u32, PizzaPrice)>,
    /// The stablecoin's address, when wired in.
    pub usd_id: Option<AccountId>,
    /// The identity allowed to upgrade the reference, when set.
    pub upgrader: Option<AccountId>,
}

impl PizzaOracle {
    /// Creates an initialized, empty price reference.
    pub fn new() -> (r: PizzaOracle)
        ensures
            r.is_init,
            r.caller is None,
            r.pizza_tipper_id is None,
            r.price_map@.len() == 0,
            r.usd_id is None,
            r.upgrader is None,
    {
        PizzaOracle {
            caller: None,
            is_init: true,
            pizza_tipper_id: None,
            price_map: Vec::new(),
            usd_id: None,
            upgrader: None,
        }
    }

    /// The price record stored under `id`, if any.  A pure read.
    pub fn get_price(&self, id: u32) -> (r: Option<PizzaPrice>)
        ensures
            r == price_at(self.price_map@, id),
    {
        let n = self.price_map.len();
        let mut i: usize = 0;
        proof {
            assert(self.price_map@.skip(0) =~= self.price_map@);
        }
        while i < n
            invariant
                n == self.price_map@.len(),
                i <= n,
                price_at(self.price_map@, id) == price_at(self.price_map@.skip(i as int), id),
            decreases n - i,
        {
            let entry = self.price_map[i];
            proof {
                assert(self.price_map@.skip(i as int).first() == self.price_map@[i as int]);
                assert(self.price_map@.skip(i as int).drop_first() =~= self.price_map@.skip(
                    i as int + 1,
                ));
            }
            if entry.0 == id {
                return Some(entry.1);
            }
            i += 1;
        }
        None
    }
}

} // verus!
