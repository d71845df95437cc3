//! The ledger: tip records, balances, payment validation.
//!
//! Each operation takes its call context — the caller's identity and, where
//! the call is payable, the attached payment — as explicit arguments; the
//! host that receives the message reads them from the invocation and passes
//! them in.  Side effects the host must perform (forwarding the payment,
//! terminating the module) are returned as values rather than performed
//! here, and emitted events are appended to the ledger's ordered event log.

use crate::account::AccountId;
use crate::account::CodeHash;
use crate::errors::Error;
use crate::errors::TipperError;
use crate::events::PizzaSent;
use crate::events::TipperEvent;
use crate::store::AccountMap;
use vstd::prelude::*;

verus! {

/// A tip record: created once per accepted tip, immutable afterwards.
#[derive(Debug, PartialEq, Eq)]
pub struct Tip {
    pub from: AccountId,
    pub to: AccountId,
    pub pizzas: u32,
    pub message: String,
}

impl Clone for Tip {
    fn clone(&self) -> (r: Tip)
        ensures
            r == *self,
    {
        Tip {
            from: self.from,
            to: self.to,
            pizzas: self.pizzas,
            message: self.message.clone(),
        }
    }
}

/// The payment a tip of `quantity` pizzas requires: the per-unit price times
/// the quantity, saturating at the largest representable amount instead of
/// wrapping.
pub open spec fn required_cost(price_per_unit: u128, quantity: u32) -> u128 {
    if (price_per_unit as int) * (quantity as int) > u128::MAX {
        u128::MAX
    } else {
        ((price_per_unit as int) * (quantity as int)) as u128
    }
}

/// Computes [`required_cost`], saturating on overflow.
pub fn required_payment(price_per_unit: u128, quantity: u32) -> (r: u128)
    ensures
        r == required_cost(price_per_unit, quantity),
{
    price_per_unit.checked_mul(quantity as u128).unwrap_or(u128::MAX)
}

/// The ledger's state.
pub struct Tipper {
    /// The next sequence id to assign; ids are never reused.
    pub id_counter: u32,
    /// The id of each submitter's tip record.
    pub id_map: AccountMap<u32>,
    /// All tip records, indexed by their sequence id.
    pub tip_map: Vec<Tip>,
    /// Ledger-local balance accounting, independent of chain-held balances.
    pub balances: AccountMap<u128>,
    /// The amount credited at construction.
    pub total_supply: u128,
    /// Insertion-ordered audit list of everyone who has ever tipped.
    pub pizza_tippers: Vec<AccountId>,
    /// The fixed per-pizza price, set at construction.
    pub price_per_pizza: u128,
    /// The price reference's address, when one is wired in.
    pub pizza_oracle: Option<AccountId>,
    /// The highlighting registry's address; absent means highlighting is
    /// skipped entirely.
    pub highlighted_pizzas: Option<AccountId>,
    /// Whether a submitter may tip again without a clearing operation.
    pub allow_multiple_tips: bool,
    /// The ordered, append-only log of emitted events.
    pub events: Vec<TipperEvent>,
}

/// The fields fixed at construction are the same in `pre` and `post`.
pub open spec fn config_unchanged(pre: Tipper, post: Tipper) -> bool {
    &&& post.total_supply == pre.total_supply
    &&& post.price_per_pizza == pre.price_per_pizza
    &&& post.pizza_oracle == pre.pizza_oracle
    &&& post.highlighted_pizzas == pre.highlighted_pizzas
    &&& post.allow_multiple_tips == pre.allow_multiple_tips
}

/// `post` is `pre` after committing one accepted tip: the record is appended
/// under the next sequence id, the submitter is indexed and audited, the
/// event is logged, and nothing else moves.
pub open spec fn tip_commits(
    pre: Tipper,
    post: Tipper,
    caller: AccountId,
    to: AccountId,
    message: String,
    n_pizzas: u32,
    id: u32,
) -> bool {
    &&& id == pre.id_counter
    &&& post.id_counter == pre.id_counter + 1
    &&& post.tip_map@ == pre.tip_map@.push((Tip { from: caller, to, pizzas: n_pizzas, message }))
    &&& post.id_map@ == pre.id_map@.insert(caller, id)
    &&& post.pizza_tippers@ == pre.pizza_tippers@.push(caller)
    &&& post.events@ == pre.events@.push(TipperEvent::PizzaSent(
        (PizzaSent { from: caller, to, id, pizzas: n_pizzas }),
    ))
    &&& post.balances@ == pre.balances@
    &&& config_unchanged(pre, post)
}

impl Tipper {
    /// Internal consistency: the id maps are well formed, ids are dense, and
    /// every indexed id points at a record submitted by its key.
    pub open spec fn wf(&self) -> bool {
        &&& self.id_map.wf()
        &&& self.balances.wf()
        &&& self.id_counter == self.tip_map@.len()
        &&& forall|a: AccountId| #[trigger] self.id_map@.contains_key(a)
                ==> self.id_map@[a] < self.tip_map@.len()
                    && self.tip_map@[self.id_map@[a] as int].from == a
    }

    /// The ledger-local balance of `owner`: zero when no entry exists.
    pub open spec fn spec_balance_of(&self, owner: AccountId) -> u128 {
        if self.balances@.contains_key(owner) {
            self.balances@[owner]
        } else {
            0
        }
    }

    /// How the ledger answers a tip from `caller` with `attached` payment:
    /// the duplicate-submission guard first, then the payment check against
    /// the saturated required cost, then the payout outcome.
    pub open spec fn tip_decision(
        &self,
        caller: AccountId,
        attached: u128,
        n_pizzas: u32,
        payout_ok: bool,
    ) -> Result<(), TipperError> {
        if !self.allow_multiple_tips && self.id_map@.contains_key(caller) {
            Err(TipperError::AlreadyTipped)
        } else if attached < required_cost(self.price_per_pizza, n_pizzas) {
            Err(TipperError::InsufficientAmount(required_cost(self.price_per_pizza, n_pizzas)))
        } else if !payout_ok {
            Err(TipperError::TipError)
        } else {
            Ok(())
        }
    }

    /// Creates a ledger.  The deploying caller is credited with the opening
    /// supply; the duplicate-submission guard is an explicit construction
    /// choice.  The registry named by the code reference is wired in by the
    /// host once instantiated.
    pub fn new(
        caller: AccountId,
        _version: u8,
        _highlighted_pizzas_hash: CodeHash,
        total_supply: u128,
        price_per_pizza: u128,
        allow_multiple_tips: bool,
    ) -> (r: Tipper)
        ensures
            r.wf(),
            r.id_counter == 0,
            r.tip_map@.len() == 0,
            r.id_map@ == Map::<AccountId, u32>::empty(),
            r.balances@ == Map::<AccountId, u128>::empty().insert(caller, total_supply),
            r.total_supply == total_supply,
            r.pizza_tippers@.len() == 0,
            r.price_per_pizza == price_per_pizza,
            r.pizza_oracle is None,
            r.highlighted_pizzas is None,
            r.allow_multiple_tips == allow_multiple_tips,
            r.events@.len() == 0,
    {
        let mut balances: AccountMap<u128> = AccountMap::new();
        balances.insert(caller, total_supply);
        Tipper {
            id_counter: 0,
            id_map: AccountMap::new(),
            tip_map: Vec::new(),
            balances,
            total_supply,
            pizza_tippers: Vec::new(),
            price_per_pizza,
            pizza_oracle: None,
            highlighted_pizzas: None,
            allow_multiple_tips,
            events: Vec::new(),
        }
    }

    /// Creates an empty ledger with a zero price and no opening supply.
    pub fn free() -> (r: Tipper)
        ensures
            r.wf(),
            r.id_counter == 0,
            r.tip_map@.len() == 0,
            r.id_map@ == Map::<AccountId, u32>::empty(),
            r.balances@ == Map::<AccountId, u128>::empty(),
            r.total_supply == 0,
            r.pizza_tippers@.len() == 0,
            r.price_per_pizza == 0,
            r.pizza_oracle is None,
            r.highlighted_pizzas is None,
            !r.allow_multiple_tips,
            r.events@.len() == 0,
    {
        Tipper {
            id_counter: 0,
            id_map: AccountMap::new(),
            tip_map: Vec::new(),
            balances: AccountMap::new(),
            total_supply: 0,
            pizza_tippers: Vec::new(),
            price_per_pizza: 0,
            pizza_oracle: None,
            highlighted_pizzas: None,
            allow_multiple_tips: false,
            events: Vec::new(),
        }
    }

    /// Wires in the instantiated registry's address; highlight calls are
    /// addressed to it from then on.
    pub fn set_highlighted_pizzas(&mut self, registry: AccountId)
        ensures
            *final(self) == (Tipper { highlighted_pizzas: Some(registry), ..*old(self) }),
    {
        self.highlighted_pizzas = Some(registry);
    }

    /// The amount credited at construction.
    pub fn total_supply(&self) -> (r: u128)
        ensures
            r == self.total_supply,
    {
        self.total_supply
    }

    /// The ledger-local balance of `owner`, zero when absent.
    pub fn balance_of(&self, owner: AccountId) -> (r: u128)
        requires
            self.wf(),
        ensures
            r == self.spec_balance_of(owner),
    {
        self.balances.get(&owner).unwrap_or(0)
    }

    /// A copy of the audit list of everyone who has ever tipped.
    pub fn get_pizza_tippers(&self) -> (r: Vec<AccountId>)
        ensures
            r@ == self.pizza_tippers@,
    {
        let n = self.pizza_tippers.len();
        let mut r: Vec<AccountId> = Vec::new();
        let mut i: usize = 0;
        while i < n
            invariant
                n == self.pizza_tippers@.len(),
                i <= n,
                r@ == self.pizza_tippers@.subrange(0, i as int),
            decreases n - i,
        {
            r.push(self.pizza_tippers[i]);
            proof {
                assert(r@ =~= self.pizza_tippers@.subrange(0, i + 1));
            }
            i += 1;
        }
        proof {
            assert(r@ =~= self.pizza_tippers@);
        }
        r
    }

    /// Looking up pizzas always succeeds and does nothing.
    pub fn lookup_pizzas(&self) -> (r: Result<(), TipperError>)
        ensures
            r is Ok,
    {
        Ok(())
    }

    /// Moves `value` of ledger-local balance from `caller` to `to`.
    ///
    /// Rejects with `InsufficientBalance`, changing nothing, exactly when the
    /// caller's balance does not cover `value`.
    pub fn transfer(&mut self, caller: AccountId, to: AccountId, value: u128) -> (r: Result<
        (),
        Error,
    >)
        requires
            old(self).wf(),
            old(self).spec_balance_of(caller) >= value && caller != to ==> old(self).spec_balance_of(
                to,
            ) + value <= u128::MAX,
        ensures
            final(self).wf(),
            old(self).spec_balance_of(caller) < value ==> r == Err::<(), Error>(
                Error::InsufficientBalance,
            ) && *final(self) == *old(self),
            old(self).spec_balance_of(caller) >= value ==> r is Ok
                && final(self).balances@ == old(self).balances@.insert(
                caller,
                (old(self).spec_balance_of(caller) - value) as u128,
            ).insert(
                to,
                if to == caller {
                    old(self).spec_balance_of(caller)
                } else {
                    (old(self).spec_balance_of(to) + value) as u128
                },
            ),
            final(self).id_counter == old(self).id_counter,
            final(self).id_map@ == old(self).id_map@,
            final(self).tip_map@ == old(self).tip_map@,
            final(self).pizza_tippers@ == old(self).pizza_tippers@,
            final(self).events@ == old(self).events@,
            config_unchanged(*old(self), *final(self)),
    {
        let from_balance = self.balance_of(caller);
        if from_balance < value {
            return Err(Error::InsufficientBalance);
        }
        self.balances.insert(caller, from_balance - value);
        let to_balance = self.balance_of(to);
        proof {
            if to == caller {
                assert(self.balances@[to] == from_balance - value);
            }
        }
        self.balances.insert(to, to_balance + value);
        Ok(())
    }

    /// Records a tip of `n_pizzas` to `to`, paid for by the attached amount.
    ///
    /// The caller's identity, the attached payment and the outcome of the
    /// host's payout of that payment to the recipient are the call context.
    /// The decision is exactly [`Tipper::tip_decision`]: a rejected call
    /// leaves the ledger untouched — in particular, no record is written
    /// unless the payout succeeded — and an accepted one commits the record
    /// under the next sequence id and logs the `PizzaSent` event.
    pub fn tip(
        &mut self,
        caller: AccountId,
        attached: u128,
        tip_message: String,
        to: AccountId,
        n_pizzas: u32,
        payout_ok: bool,
    ) -> (r: Result<(), TipperError>)
        requires
            old(self).wf(),
            old(self).id_counter < u32::MAX,
        ensures
            final(self).wf(),
            r == old(self).tip_decision(caller, attached, n_pizzas, payout_ok),
            r is Ok ==> tip_commits(
                *old(self),
                *final(self),
                caller,
                to,
                tip_message,
                n_pizzas,
                old(self).id_counter,
            ),
            r is Err ==> *final(self) == *old(self),
    {
        if !self.allow_multiple_tips && self.id_map.contains(&caller) {
            return Err(TipperError::AlreadyTipped);
        }
        let pizza_cost = required_payment(self.price_per_pizza, n_pizzas);
        if attached < pizza_cost {
            return Err(TipperError::InsufficientAmount(pizza_cost));
        }
        if !payout_ok {
            return Err(TipperError::TipError);
        }
        let event = self._tip(tip_message, caller, to, n_pizzas);
        self.events.push(TipperEvent::PizzaSent(event));
        Ok(())
    }

    /// Builds the record and the event for an accepted tip.
    fn _tip(&mut self, tip_message: String, from: AccountId, to: AccountId, n_pizzas: u32) -> (event:
        PizzaSent)
        requires
            old(self).wf(),
            old(self).id_counter < u32::MAX,
        ensures
            final(self).wf(),
            event == (PizzaSent { from, to, id: old(self).id_counter, pizzas: n_pizzas }),
            final(self).id_counter == old(self).id_counter + 1,
            final(self).tip_map@ == old(self).tip_map@.push(
                (Tip { from, to, pizzas: n_pizzas, message: tip_message }),
            ),
            final(self).id_map@ == old(self).id_map@.insert(from, old(self).id_counter),
            final(self).pizza_tippers@ == old(self).pizza_tippers@.push(from),
            final(self).events@ == old(self).events@,
            final(self).balances@ == old(self).balances@,
            config_unchanged(*old(self), *final(self)),
    {
        let tip = Tip { from, to, pizzas: n_pizzas, message: tip_message };
        let tip_id = self.insert_tip(&from, tip);
        PizzaSent { from, to, pizzas: n_pizzas, id: tip_id }
    }

    /// Appends `tip` under the next sequence id and indexes its submitter.
    fn insert_tip(&mut self, from: &AccountId, tip: Tip) -> (pizza_id: u32)
        requires
            old(self).wf(),
            old(self).id_counter < u32::MAX,
            tip.from == *from,
        ensures
            final(self).wf(),
            pizza_id == old(self).id_counter,
            final(self).id_counter == old(self).id_counter + 1,
            final(self).tip_map@ == old(self).tip_map@.push(tip),
            final(self).id_map@ == old(self).id_map@.insert(*from, pizza_id),
            final(self).pizza_tippers@ == old(self).pizza_tippers@.push(*from),
            final(self).events@ == old(self).events@,
            final(self).balances@ == old(self).balances@,
            config_unchanged(*old(self), *final(self)),
    {
        let pizza_id = self.id_counter;
        self.id_map.insert(*from, pizza_id);
        self.tip_map.push(tip);
        self.id_counter = pizza_id + 1;
        self.pizza_tippers.push(*from);
        proof {
            assert forall|a: AccountId| #[trigger] self.id_map@.contains_key(a)
                implies self.id_map@[a] < self.tip_map@.len()
                    && self.tip_map@[self.id_map@[a] as int].from == a by {
                if a == *from {
                    assert(self.tip_map@[pizza_id as int] == tip);
                } else {
                    assert(old(self).id_map@.contains_key(a));
                    assert(self.tip_map@[self.id_map@[a] as int]
                        == old(self).tip_map@[self.id_map@[a] as int]);
                }
            }
        }
        pizza_id
    }

    /// The record stored under sequence id `id`, if one exists.
    pub fn get_by_id(&self, id: u32) -> (r: Option<Tip>)
        ensures
            r == if id < self.tip_map@.len() {
                Some(self.tip_map@[id as int])
            } else {
                None::<Tip>
            },
    {
        if (id as usize) < self.tip_map.len() {
            Some(self.tip_map[id as usize].clone())
        } else {
            None
        }
    }

    /// The record of `from`'s tip, if `from` has one indexed.
    pub fn get_by_account(&self, from: &AccountId) -> (r: Option<Tip>)
        requires
            self.wf(),
        ensures
            r == if self.id_map@.contains_key(*from) {
                Some(self.tip_map@[self.id_map@[*from] as int])
            } else {
                None::<Tip>
            },
            r is Some ==> r->Some_0.from == *from,
    {
        match self.id_map.get(from) {
            Some(tip_id) => Some(self.tip_map[tip_id as usize].clone()),
            None => None,
        }
    }

    /// The fixed per-pizza price.
    pub fn get_pizza_cost(&self) -> (r: u128)
        ensures
            r == self.price_per_pizza,
    {
        self.price_per_pizza
    }

    /// Decides termination: permitted only while no tip records exist.  The
    /// returned identity, if any, is the caller the host must release all
    /// ledger-held resources to; the ledger itself does not change.
    pub fn terminate_contract(&mut self, caller: AccountId) -> (r: Option<AccountId>)
        ensures
            *final(self) == *old(self),
            r == if old(self).tip_map@.len() == 0 {
                Some(caller)
            } else {
                None::<AccountId>
            },
    {
        if self.tip_map.len() == 0 {
            Some(caller)
        } else {
            None
        }
    }
}

/// Before any clearing operation, a second tip from the same submitter is
/// rejected as `AlreadyTipped` whenever the duplicate-submission guard is
/// enabled, whatever payment it attaches.
pub proof fn lemma_second_tip_rejected(
    pre: Tipper,
    post: Tipper,
    caller: AccountId,
    to: AccountId,
    message: String,
    n_pizzas: u32,
    attached2: u128,
    n_pizzas2: u32,
    payout_ok2: bool,
)
    requires
        !pre.allow_multiple_tips,
        tip_commits(pre, post, caller, to, message, n_pizzas, pre.id_counter),
    ensures
        post.tip_decision(caller, attached2, n_pizzas2, payout_ok2) == Err::<(), TipperError>(
            TipperError::AlreadyTipped,
        ),
{
    assert(post.id_map@.contains_key(caller));
}

/// An accepted tip stores, under the id it was assigned, a record carrying
/// exactly the submitted sender, recipient, quantity and message.
pub proof fn lemma_tip_record_exact(
    pre: Tipper,
    post: Tipper,
    caller: AccountId,
    to: AccountId,
    message: String,
    n_pizzas: u32,
    id: u32,
)
    requires
        pre.wf(),
        tip_commits(pre, post, caller, to, message, n_pizzas, id),
    ensures
        post.tip_map@.len() == id + 1,
        post.tip_map@[id as int] == (Tip { from: caller, to, pizzas: n_pizzas, message }),
{
}

/// Sequence ids of successive accepted tips are consecutive: a tip committed
/// on the state another tip left behind is assigned the next id.
pub proof fn lemma_tip_ids_sequential(
    t0: Tipper,
    t1: Tipper,
    t2: Tipper,
    caller1: AccountId,
    to1: AccountId,
    message1: String,
    n1: u32,
    id1: u32,
    caller2: AccountId,
    to2: AccountId,
    message2: String,
    n2: u32,
    id2: u32,
)
    requires
        tip_commits(t0, t1, caller1, to1, message1, n1, id1),
        tip_commits(t1, t2, caller2, to2, message2, n2, id2),
    ensures
        id2 == id1 + 1,
{
}

} // verus!
