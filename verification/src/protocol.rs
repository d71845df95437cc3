//! The cross-module call interface.
//!
//! Every operation is addressed by a fixed numeric selector that stands on
//! the wire as its four big-endian bytes, followed by the operation's
//! arguments in their binary form.  A call is a plain request value — callee,
//! input bytes, attached payment — and the registry answers with a reply of
//! encoded bytes, or refuses input that no operation decodes from.  The
//! ledger builds requests; [`dispatch_registry_call`] is the registry's side
//! of the wire.

use crate::account::AccountId;
use crate::account::lemma_account_eq_is_view_eq;
use crate::account::lemma_account_id_len;
use crate::codec::encode_highlight_result;
use crate::codec::encode_option_u32;
use crate::codec::highlight_result_bytes;
use crate::codec::lemma_u32_be_bytes_injective;
use crate::codec::lemma_u32_le_bytes_injective;
use crate::codec::option_u32_bytes;
use crate::codec::push_u32_be;
use crate::codec::scale_encode_account;
use crate::codec::scale_encode_u32;
use crate::codec::take_account;
use crate::codec::take_u32_be;
use crate::codec::take_u32_le;
use crate::codec::u32_be_bytes;
use crate::codec::u32_le_bytes;
use crate::registry::HighlightedPizzas;
use crate::registry::add_commits;
use crate::registry::add_content_commits;
use crate::registry::delete_commits;
use crate::registry::delete_content_commits;
use crate::tipper::Tipper;
use vstd::prelude::*;

verus! {

broadcast use lemma_account_id_len;

/// Removes a content highlight.
pub const DELETE_CONTENT_SELECTOR: u32 = 3;

/// Removes a tip highlight.
pub const DELETE_PIZZA_SELECTOR: u32 = 4;

/// Legacy get-by-author lookup; no longer dispatched.
pub const GET_BY_AUTHOR_SELECTOR: u32 = 5;

/// Asks the price reference for a record; shares its number with the legacy
/// registry lookup, the two living in different modules.
pub const GET_PIZZA_PRICE_SELECTOR: u32 = 5;

/// Reads a tip highlight.
pub const HIGHLIGHTED_PIZZA_SELECTOR: u32 = 6;

/// Adds a tip highlight (payable).
pub const HIGHLIGHT_PIZZA_SELECTOR: u32 = 7;

/// Reads a content highlight.
pub const HIGHLIGHTED_CONTENT_SELECTOR: u32 = 8;

/// Adds a content highlight (payable).
pub const HIGHLIGHT_CONTENT_SELECTOR: u32 = 9;

/// One cross-module call, ready for the host to deliver: the callee, the
/// selector-prefixed input bytes, and the attached payment.
pub struct CallRequest {
    pub callee: AccountId,
    pub input: Vec<u8>,
    pub transferred_value: u128,
}

/// What comes back over the wire: a reply of encoded bytes, or the refusal
/// of a call whose input no operation decodes from.
pub enum DispatchResult {
    Reply(Vec<u8>),
    BadCall,
}

/// The input bytes asking the registry to highlight a tip.
pub open spec fn highlight_pizza_input(from: AccountId, to: AccountId, id: u32, pizzas: u32) -> Seq<
    u8,
> {
    u32_be_bytes(HIGHLIGHT_PIZZA_SELECTOR) + from@ + to@ + u32_le_bytes(id) + u32_le_bytes(pizzas)
}

/// The input bytes asking the registry to highlight a content item.
pub open spec fn highlight_content_input(author: AccountId, id: u32) -> Seq<u8> {
    u32_be_bytes(HIGHLIGHT_CONTENT_SELECTOR) + author@ + u32_le_bytes(id)
}

/// The input bytes asking the registry to remove a tip highlight.
pub open spec fn delete_pizza_input(from: AccountId) -> Seq<u8> {
    u32_be_bytes(DELETE_PIZZA_SELECTOR) + from@
}

/// The input bytes asking the registry to remove a content highlight.
pub open spec fn delete_content_input(author: AccountId) -> Seq<u8> {
    u32_be_bytes(DELETE_CONTENT_SELECTOR) + author@
}

/// The input bytes reading a tip highlight.
pub open spec fn get_pizza_input(from: AccountId) -> Seq<u8> {
    u32_be_bytes(HIGHLIGHTED_PIZZA_SELECTOR) + from@
}

/// The input bytes reading a content highlight.
pub open spec fn get_content_input(author: AccountId) -> Seq<u8> {
    u32_be_bytes(HIGHLIGHTED_CONTENT_SELECTOR) + author@
}

impl Tipper {
    /// Builds the cross-module call that asks the registry to highlight
    /// `from`'s tip, passing the tip's parties, id and quantity, with `cost`
    /// attached.  Returns nothing when no registry address is configured:
    /// highlighting is then skipped entirely.
    pub fn highlight_tip(
        &self,
        from: AccountId,
        to: AccountId,
        id: u32,
        pizzas: u32,
        cost: u128,
    ) -> (r: Option<CallRequest>)
        ensures
            match self.highlighted_pizzas {
                None => r is None,
                Some(addr) => r matches Some(req) && req.callee == addr && req.input@
                    == highlight_pizza_input(from, to, id, pizzas) && req.transferred_value == cost,
            },
    {
        match self.highlighted_pizzas {
            Some(addr) => {
                let mut input: Vec<u8> = Vec::new();
                push_u32_be(&mut input, HIGHLIGHT_PIZZA_SELECTOR);
                let mut arg = scale_encode_account(&from);
                input.append(&mut arg);
                let mut arg = scale_encode_account(&to);
                input.append(&mut arg);
                let mut arg = scale_encode_u32(id);
                input.append(&mut arg);
                let mut arg = scale_encode_u32(pizzas);
                input.append(&mut arg);
                proof {
                    assert(input@ =~= highlight_pizza_input(from, to, id, pizzas));
                }
                Some(CallRequest { callee: addr, input, transferred_value: cost })
            }
            None => None,
        }
    }

    /// Builds the cross-module call that asks the registry to remove
    /// `from`'s tip highlight; nothing when no registry address is
    /// configured.
    pub fn delete_tip_highlight(&self, from: AccountId) -> (r: Option<CallRequest>)
        ensures
            match self.highlighted_pizzas {
                None => r is None,
                Some(addr) => r matches Some(req) && req.callee == addr && req.input@
                    == delete_pizza_input(from) && req.transferred_value == 0,
            },
    {
        match self.highlighted_pizzas {
            Some(addr) => {
                let mut input: Vec<u8> = Vec::new();
                push_u32_be(&mut input, DELETE_PIZZA_SELECTOR);
                let mut arg = scale_encode_account(&from);
                input.append(&mut arg);
                proof {
                    assert(input@ =~= delete_pizza_input(from));
                }
                Some(CallRequest { callee: addr, input, transferred_value: 0 })
            }
            None => None,
        }
    }
}

/// The registry's side of the wire: decodes the selector and arguments,
/// applies the operation as the registry's own contract says, and encodes
/// the answer.  Input that no operation decodes from is refused without
/// touching the registry.
pub fn dispatch_registry_call(
    reg: &mut HighlightedPizzas,
    caller: AccountId,
    _transferred_value: u128,
    input: &Vec<u8>,
) -> (res: DispatchResult)
    requires
        old(reg).wf(),
    ensures
        final(reg).wf(),
        res is BadCall ==> *final(reg) == *old(reg),
        forall|from: AccountId, to: AccountId, id: u32, pizzas: u32|
            input@ == #[trigger] highlight_pizza_input(from, to, id, pizzas) ==> ({
                let out = old(reg).add_outcome(caller, from);
                &&& res matches DispatchResult::Reply(b) && b@ == highlight_result_bytes(out)
                &&& (out is Ok ==> add_commits(*old(reg), *final(reg), from, to, id, pizzas))
                &&& (out is Err ==> *final(reg) == *old(reg))
            }),
        forall|author: AccountId, id: u32|
            input@ == #[trigger] highlight_content_input(author, id) ==> ({
                let out = old(reg).add_content_outcome(caller, author);
                &&& res matches DispatchResult::Reply(b) && b@ == highlight_result_bytes(out)
                &&& (out is Ok ==> add_content_commits(*old(reg), *final(reg), author, id))
                &&& (out is Err ==> *final(reg) == *old(reg))
            }),
        forall|from: AccountId|
            input@ == #[trigger] delete_pizza_input(from) ==> ({
                let out = old(reg).delete_outcome(caller, from);
                &&& res matches DispatchResult::Reply(b) && b@ == highlight_result_bytes(out)
                &&& (out is Ok ==> delete_commits(*old(reg), *final(reg), from))
                &&& (out is Err ==> *final(reg) == *old(reg))
            }),
        forall|author: AccountId|
            input@ == #[trigger] delete_content_input(author) ==> ({
                let out = old(reg).delete_content_outcome(caller, author);
                &&& res matches DispatchResult::Reply(b) && b@ == highlight_result_bytes(out)
                &&& (out is Ok ==> delete_content_commits(*old(reg), *final(reg), author))
                &&& (out is Err ==> *final(reg) == *old(reg))
            }),
        forall|from: AccountId|
            input@ == #[trigger] get_pizza_input(from) ==> *final(reg) == *old(reg) && (
            res matches DispatchResult::Reply(b) && b@ == option_u32_bytes(
                if old(reg).highlighted_pizzas@.contains_key(from) {
                    Some(old(reg).highlighted_pizzas@[from])
                } else {
                    None::<u32>
                },
            )),
        forall|author: AccountId|
            input@ == #[trigger] get_content_input(author) ==> *final(reg) == *old(reg) && (
            res matches DispatchResult::Reply(b) && b@ == option_u32_bytes(
                if old(reg).highlighted_content@.contains_key(author) {
                    Some(old(reg).highlighted_content@[author])
                } else {
                    None::<u32>
                },
            )),
{
    if input.len() < 4 {
        proof {
            lemma_no_input_matches(input@, 3);
        }
        return DispatchResult::BadCall;
    }
    let selector = take_u32_be(input, 0);
    if selector == HIGHLIGHT_PIZZA_SELECTOR {
        proof {
            lemma_other_selectors_refused(input@, selector);
        }
        if input.len() != 76 {
            proof {
                assert forall|f: AccountId, t: AccountId, i: u32, p: u32| input@
                    != highlight_pizza_input(f, t, i, p) by {
                    assert(highlight_pizza_input(f, t, i, p).len() == 76);
                }
            }
            return DispatchResult::BadCall;
        }
        let from = take_account(input, 4);
        let to = take_account(input, 36);
        let id = take_u32_le(input, 68);
        let pizzas = take_u32_le(input, 72);
        let out = reg.add(caller, from, to, id, pizzas);
        let reply = encode_highlight_result(&out);
        proof {
            assert forall|f: AccountId, t: AccountId, i: u32, p: u32| input@
                == highlight_pizza_input(f, t, i, p) implies f == from && t == to && i == id && p
                == pizzas by {
                assert(input@.subrange(4, 36) =~= f@);
                assert(input@.subrange(36, 68) =~= t@);
                assert(input@.subrange(68, 72) =~= u32_le_bytes(i));
                assert(input@.subrange(72, 76) =~= u32_le_bytes(p));
                lemma_account_eq_is_view_eq(from, f);
                lemma_account_eq_is_view_eq(to, t);
                lemma_u32_le_bytes_injective(id, i);
                lemma_u32_le_bytes_injective(pizzas, p);
            }
        }
        return DispatchResult::Reply(reply);
    }
    if selector == HIGHLIGHT_CONTENT_SELECTOR {
        proof {
            lemma_other_selectors_refused(input@, selector);
        }
        if input.len() != 40 {
            proof {
                assert forall|a: AccountId, i: u32| input@ != highlight_content_input(a, i) by {
                    assert(highlight_content_input(a, i).len() == 40);
                }
            }
            return DispatchResult::BadCall;
        }
        let author = take_account(input, 4);
        let id = take_u32_le(input, 36);
        let out = reg.add_content(caller, author, id);
        let reply = encode_highlight_result(&out);
        proof {
            assert forall|a: AccountId, i: u32| input@ == highlight_content_input(a, i) implies a
                == author && i == id by {
                assert(input@.subrange(4, 36) =~= a@);
                assert(input@.subrange(36, 40) =~= u32_le_bytes(i));
                lemma_account_eq_is_view_eq(author, a);
                lemma_u32_le_bytes_injective(id, i);
            }
        }
        return DispatchResult::Reply(reply);
    }
    if selector == DELETE_PIZZA_SELECTOR {
        proof {
            lemma_other_selectors_refused(input@, selector);
        }
        if input.len() != 36 {
            proof {
                assert forall|f: AccountId| input@ != delete_pizza_input(f) by {
                    assert(delete_pizza_input(f).len() == 36);
                }
            }
            return DispatchResult::BadCall;
        }
        let from = take_account(input, 4);
        let out = reg.delete_tip_by_author(caller, from);
        let reply = encode_highlight_result(&out);
        proof {
            assert forall|f: AccountId| input@ == delete_pizza_input(f) implies f == from by {
                assert(input@.subrange(4, 36) =~= f@);
                lemma_account_eq_is_view_eq(from, f);
            }
        }
        return DispatchResult::Reply(reply);
    }
    if selector == DELETE_CONTENT_SELECTOR {
        proof {
            lemma_other_selectors_refused(input@, selector);
        }
        if input.len() != 36 {
            proof {
                assert forall|a: AccountId| input@ != delete_content_input(a) by {
                    assert(delete_content_input(a).len() == 36);
                }
            }
            return DispatchResult::BadCall;
        }
        let author = take_account(input, 4);
        let out = reg.delete_content_by_author(caller, author);
        let reply = encode_highlight_result(&out);
        proof {
            assert forall|a: AccountId| input@ == delete_content_input(a) implies a == author by {
                assert(input@.subrange(4, 36) =~= a@);
                lemma_account_eq_is_view_eq(author, a);
            }
        }
        return DispatchResult::Reply(reply);
    }
    if selector == HIGHLIGHTED_PIZZA_SELECTOR {
        proof {
            lemma_other_selectors_refused(input@, selector);
        }
        if input.len() != 36 {
            proof {
                assert forall|f: AccountId| input@ != get_pizza_input(f) by {
                    assert(get_pizza_input(f).len() == 36);
                }
            }
            return DispatchResult::BadCall;
        }
        let from = take_account(input, 4);
        let found = reg.get_highlighted_pizzas(from);
        let reply = encode_option_u32(&found);
        proof {
            assert forall|f: AccountId| input@ == get_pizza_input(f) implies f == from by {
                assert(input@.subrange(4, 36) =~= f@);
                lemma_account_eq_is_view_eq(from, f);
            }
        }
        return DispatchResult::Reply(reply);
    }
    if selector == HIGHLIGHTED_CONTENT_SELECTOR {
        proof {
            lemma_other_selectors_refused(input@, selector);
        }
        if input.len() != 36 {
            proof {
                assert forall|a: AccountId| input@ != get_content_input(a) by {
                    assert(get_content_input(a).len() == 36);
                }
            }
            return DispatchResult::BadCall;
        }
        let author = take_account(input, 4);
        let found = reg.get_content_by_author(author);
        let reply = encode_option_u32(&found);
        proof {
            assert forall|a: AccountId| input@ == get_content_input(a) implies a == author by {
                assert(input@.subrange(4, 36) =~= a@);
                lemma_account_eq_is_view_eq(author, a);
            }
        }
        return DispatchResult::Reply(reply);
    }
    proof {
        lemma_other_selectors_refused(input@, selector);
        assert forall|f: AccountId, t: AccountId, i: u32, p: u32| input@ != highlight_pizza_input(
            f,
            t,
            i,
            p,
        ) by {
            assert(highlight_pizza_input(f, t, i, p).subrange(0, 4) =~= u32_be_bytes(
                HIGHLIGHT_PIZZA_SELECTOR,
            ));
            if input@ == highlight_pizza_input(f, t, i, p) {
                lemma_u32_be_bytes_injective(selector, HIGHLIGHT_PIZZA_SELECTOR);
            }
        }
    }
    DispatchResult::BadCall
}

/// Input shorter than any operation's matches no operation.
proof fn lemma_no_input_matches(b: Seq<u8>, n: int)
    requires
        b.len() <= n < 36,
    ensures
        forall|f: AccountId, t: AccountId, i: u32, p: u32| b != highlight_pizza_input(f, t, i, p),
        forall|a: AccountId, i: u32| b != highlight_content_input(a, i),
        forall|f: AccountId| b != delete_pizza_input(f),
        forall|a: AccountId| b != delete_content_input(a),
        forall|f: AccountId| b != get_pizza_input(f),
        forall|a: AccountId| b != get_content_input(a),
{
    assert forall|f: AccountId, t: AccountId, i: u32, p: u32| b != highlight_pizza_input(
        f,
        t,
        i,
        p,
    ) by {
        assert(highlight_pizza_input(f, t, i, p).len() == 76);
    }
    assert forall|a: AccountId, i: u32| b != highlight_content_input(a, i) by {
        assert(highlight_content_input(a, i).len() == 40);
    }
    assert forall|f: AccountId| b != delete_pizza_input(f) by {
        assert(delete_pizza_input(f).len() == 36);
    }
    assert forall|a: AccountId| b != delete_content_input(a) by {
        assert(delete_content_input(a).len() == 36);
    }
    assert forall|f: AccountId| b != get_pizza_input(f) by {
        assert(get_pizza_input(f).len() == 36);
    }
    assert forall|a: AccountId| b != get_content_input(a) by {
        assert(get_content_input(a).len() == 36);
    }
}

/// Input whose first four bytes spell `selector` matches no operation with a
/// different selector.
proof fn lemma_other_selectors_refused(b: Seq<u8>, selector: u32)
    requires
        b.len() >= 4,
        u32_be_bytes(selector) == b.subrange(0, 4),
    ensures
        selector != HIGHLIGHT_PIZZA_SELECTOR ==> forall|f: AccountId, t: AccountId, i: u32, p: u32|
            b != highlight_pizza_input(f, t, i, p),
        selector != HIGHLIGHT_CONTENT_SELECTOR ==> forall|a: AccountId, i: u32|
            b != highlight_content_input(a, i),
        selector != DELETE_PIZZA_SELECTOR ==> forall|f: AccountId| b != delete_pizza_input(f),
        selector != DELETE_CONTENT_SELECTOR ==> forall|a: AccountId| b != delete_content_input(a),
        selector != HIGHLIGHTED_PIZZA_SELECTOR ==> forall|f: AccountId| b != get_pizza_input(f),
        selector != HIGHLIGHTED_CONTENT_SELECTOR ==> forall|a: AccountId| b != get_content_input(
            a,
        ),
{
    if selector != HIGHLIGHT_PIZZA_SELECTOR {
        assert forall|f: AccountId, t: AccountId, i: u32, p: u32| b != highlight_pizza_input(
            f,
            t,
            i,
            p,
        ) by {
            if b == highlight_pizza_input(f, t, i, p) {
                assert(b.subrange(0, 4) =~= u32_be_bytes(HIGHLIGHT_PIZZA_SELECTOR));
                lemma_u32_be_bytes_injective(selector, HIGHLIGHT_PIZZA_SELECTOR);
            }
        }
    }
    if selector != HIGHLIGHT_CONTENT_SELECTOR {
        assert forall|a: AccountId, i: u32| b != highlight_content_input(a, i) by {
            if b == highlight_content_input(a, i) {
                assert(b.subrange(0, 4) =~= u32_be_bytes(HIGHLIGHT_CONTENT_SELECTOR));
                lemma_u32_be_bytes_injective(selector, HIGHLIGHT_CONTENT_SELECTOR);
            }
        }
    }
    if selector != DELETE_PIZZA_SELECTOR {
        assert forall|f: AccountId| b != delete_pizza_input(f) by {
            if b == delete_pizza_input(f) {
                assert(b.subrange(0, 4) =~= u32_be_bytes(DELETE_PIZZA_SELECTOR));
                lemma_u32_be_bytes_injective(selector, DELETE_PIZZA_SELECTOR);
            }
        }
    }
    if selector != DELETE_CONTENT_SELECTOR {
        assert forall|a: AccountId| b != delete_content_input(a) by {
            if b == delete_content_input(a) {
                assert(b.subrange(0, 4) =~= u32_be_bytes(DELETE_CONTENT_SELECTOR));
                lemma_u32_be_bytes_injective(selector, DELETE_CONTENT_SELECTOR);
            }
        }
    }
    if selector != HIGHLIGHTED_PIZZA_SELECTOR {
        assert forall|f: AccountId| b != get_pizza_input(f) by {
            if b == get_pizza_input(f) {
                assert(b.subrange(0, 4) =~= u32_be_bytes(HIGHLIGHTED_PIZZA_SELECTOR));
                lemma_u32_be_bytes_injective(selector, HIGHLIGHTED_PIZZA_SELECTOR);
            }
        }
    }
    if selector != HIGHLIGHTED_CONTENT_SELECTOR {
        assert forall|a: AccountId| b != get_content_input(a) by {
            if b == get_content_input(a) {
                assert(b.subrange(0, 4) =~= u32_be_bytes(HIGHLIGHTED_CONTENT_SELECTOR));
                lemma_u32_be_bytes_injective(selector, HIGHLIGHTED_CONTENT_SELECTOR);
            }
        }
    }
}

} // verus!
