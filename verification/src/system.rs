//! One ledger invocation, run end to end: validate the payment, commit the
//! record, and — when a registry is configured — carry the highlight call
//! across the module boundary, synchronously, over the binary call
//! interface.
//!
//! The commit is two-phase but not atomic, by design: a registry rejection
//! arrives after the tip record is already settled and does not unwind it.
//! A transport-level failure — the configured address is not the registry,
//! or the call's input or reply cannot be decoded — is instead fatal: the
//! whole invocation aborts and no state of either module is committed.

use crate::account::AccountId;
use crate::account::lemma_account_eq_is_view_eq;
use crate::codec::decode_highlight_result;
use crate::codec::lemma_highlight_result_roundtrip;
use crate::errors::TipperError;
use crate::protocol::DispatchResult;
use crate::protocol::dispatch_registry_call;
use crate::registry::HighlightedPizzas;
use crate::registry::add_commits;
use crate::tipper::Tipper;
use crate::tipper::required_payment;
use crate::tipper::tip_commits;
use vstd::prelude::*;

verus! {

/// How one invocation ended: a committed result handed back to the caller,
/// or an abort that reverted every state change of the invocation.
#[derive(Debug, PartialEq, Eq)]
pub enum InvocationOutcome {
    Committed(Result<(), TipperError>),
    Aborted,
}

/// Runs one `tip` invocation against the ledger and the one registry
/// deployed at `registry_address`, with the ledger itself calling from
/// `tipper_address`.
///
/// The ledger decides first, as [`Tipper::tip_decision`] says; a rejection
/// is committed with both modules untouched.  An accepted tip commits the
/// record, and, when a registry address is configured, the highlight call
/// crosses to the registry: its answer is committed — wrapped as
/// `HighlightError` on rejection, with the tip record kept — while an
/// unreachable registry aborts the invocation with nothing committed.
pub fn tip_invocation(
    t: &mut Tipper,
    tipper_address: AccountId,
    reg: &mut HighlightedPizzas,
    registry_address: AccountId,
    caller: AccountId,
    attached: u128,
    tip_message: String,
    to: AccountId,
    n_pizzas: u32,
    payout_ok: bool,
) -> (outcome: InvocationOutcome)
    requires
        old(t).wf(),
        old(reg).wf(),
        old(t).id_counter < u32::MAX,
    ensures
        final(t).wf(),
        final(reg).wf(),
        ({
            let decision = old(t).tip_decision(caller, attached, n_pizzas, payout_ok);
            &&& (decision is Err ==> outcome == InvocationOutcome::Committed(decision)
                && *final(t) == *old(t) && *final(reg) == *old(reg))
            &&& (decision is Ok && old(t).highlighted_pizzas is None ==> outcome
                == InvocationOutcome::Committed(decision) && tip_commits(
                *old(t),
                *final(t),
                caller,
                to,
                tip_message,
                n_pizzas,
                old(t).id_counter,
            ) && *final(reg) == *old(reg))
            &&& (decision is Ok && (old(t).highlighted_pizzas matches Some(addr) && addr
                != registry_address) ==> outcome == InvocationOutcome::Aborted && *final(t) == *old(
                t,
            ) && *final(reg) == *old(reg))
            &&& (decision is Ok && old(t).highlighted_pizzas == Some(registry_address) ==> ({
                let highlight = old(reg).add_outcome(tipper_address, caller);
                &&& tip_commits(
                    *old(t),
                    *final(t),
                    caller,
                    to,
                    tip_message,
                    n_pizzas,
                    old(t).id_counter,
                )
                &&& (highlight is Ok ==> add_commits(
                    *old(reg),
                    *final(reg),
                    caller,
                    to,
                    old(t).id_counter,
                    n_pizzas,
                ) && outcome == InvocationOutcome::Committed(decision))
                &&& (highlight matches Err(e) ==> *final(reg) == *old(reg) && outcome
                    == InvocationOutcome::Committed(Err(TipperError::HighlightError(e))))
            }))
        }),
{
    // Phase one: the ledger's own validation, before any state moves.
    if !guard_passes(t, caller) {
        return InvocationOutcome::Committed(Err(TipperError::AlreadyTipped));
    }
    let cost = required_payment(t.price_per_pizza, n_pizzas);
    if attached < cost {
        return InvocationOutcome::Committed(Err(TipperError::InsufficientAmount(cost)));
    }
    if !payout_ok {
        return InvocationOutcome::Committed(Err(TipperError::TipError));
    }
    let target = t.highlighted_pizzas;
    match target {
        None => {
            let r = t.tip(caller, attached, tip_message, to, n_pizzas, payout_ok);
            InvocationOutcome::Committed(r)
        }
        Some(addr) => {
            let reachable = addr == registry_address;
            proof {
                lemma_account_eq_is_view_eq(addr, registry_address);
            }
            if !reachable {
                // The configured address does not answer the registry
                // interface: fatal, nothing is committed.
                return InvocationOutcome::Aborted;
            }
            let id = t.id_counter;
            let request = t.highlight_tip(caller, to, id, n_pizzas, 0).unwrap();
            let reply = dispatch_registry_call(
                reg,
                tipper_address,
                request.transferred_value,
                &request.input,
            );
            match reply {
                DispatchResult::BadCall => {
                    // The request was built by highlight_tip, whose input the
                    // registry always decodes.
                    proof {
                        assert(false);
                    }
                    InvocationOutcome::Aborted
                }
                DispatchResult::Reply(bytes) => {
                    let parsed = decode_highlight_result(&bytes);
                    proof {
                        lemma_highlight_result_roundtrip(
                            old(reg).add_outcome(tipper_address, caller),
                        );
                    }
                    match parsed {
                        None => {
                            // The registry's reply is always a well-formed
                            // answer.
                            proof {
                                assert(false);
                            }
                            InvocationOutcome::Aborted
                        }
                        Some(highlight) => {
                            let r = t.tip(caller, attached, tip_message, to, n_pizzas, payout_ok);
                            match highlight {
                                Ok(_u) => InvocationOutcome::Committed(r),
                                Err(e) => InvocationOutcome::Committed(
                                    Err(TipperError::HighlightError(e)),
                                ),
                            }
                        }
                    }
                }
            }
        }
    }
}

/// Whether the duplicate-submission guard lets `caller` tip on `t`.
fn guard_passes(t: &Tipper, caller: AccountId) -> (r: bool)
    requires
        t.wf(),
    ensures
        r == (t.allow_multiple_tips || !t.id_map@.contains_key(caller)),
{
    t.allow_multiple_tips || !t.id_map.contains(&caller)
}

} // verus!
