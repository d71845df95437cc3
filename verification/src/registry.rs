//! The highlighting registry: operator-curated markers over tips and
//! content, one per identity and namespace.
//!
//! Every mutating operation requires the caller to be the registry's
//! creator; reads are public.  As in the ledger, the caller's identity is an
//! explicit argument supplied by the host, and events go to the registry's
//! ordered log.

use crate::account::AccountId;
use crate::account::lemma_account_eq_is_view_eq;
use crate::errors::HighlightedPizzasError;
use crate::events::ContentHighlighted;
use crate::events::HighlightRemoved;
use crate::events::PizzaHighlighted;
use crate::events::RegistryEvent;
use crate::store::AccountMap;
use vstd::prelude::*;

verus! {

/// The sequence with the first occurrence of `a`, if any, taken out.
pub open spec fn remove_first(s: Seq<AccountId>, a: AccountId) -> Seq<AccountId>
    decreases s.len(),
{
    if s.len() == 0 {
        s
    } else if s.first() == a {
        s.drop_first()
    } else {
        seq![s.first()] + remove_first(s.drop_first(), a)
    }
}

/// When `i` is the first position holding `a`, removing the first occurrence
/// of `a` is removing position `i`.
proof fn lemma_remove_first_at(s: Seq<AccountId>, a: AccountId, i: int)
    requires
        0 <= i < s.len(),
        s[i] == a,
        forall|j: int| 0 <= j < i ==> s[j] != a,
    ensures
        remove_first(s, a) =~= s.remove(i),
    decreases i,
{
    if i == 0 {
        assert(s.first() == a);
        assert(s.drop_first() =~= s.remove(0));
    } else {
        assert(s.first() != a);
        let t = s.drop_first();
        assert(forall|j: int| 0 <= j < i - 1 ==> t[j] == s[j + 1]);
        lemma_remove_first_at(t, a, i - 1);
        assert(seq![s.first()] + t.remove(i - 1) =~= s.remove(i));
    }
}

/// When `a` occurs nowhere, removing its first occurrence changes nothing.
proof fn lemma_remove_first_absent(s: Seq<AccountId>, a: AccountId)
    requires
        forall|j: int| 0 <= j < s.len() ==> s[j] != a,
    ensures
        remove_first(s, a) =~= s,
    decreases s.len(),
{
    if s.len() > 0 {
        assert(s.first() != a);
        let t = s.drop_first();
        assert(forall|j: int| 0 <= j < t.len() ==> t[j] == s[j + 1]);
        lemma_remove_first_absent(t, a);
        assert(seq![s.first()] + t =~= s);
    }
}

/// Takes the first entry equal to `a` out of `v`, if one exists.
fn remove_first_account(v: &mut Vec<AccountId>, a: &AccountId)
    ensures
        final(v)@ == remove_first(old(v)@, *a),
{
    let n = v.len();
    let mut i: usize = 0;
    while i < n
        invariant
            v == old(v),
            n == v@.len(),
            i <= n,
            forall|j: int| 0 <= j < i ==> v@[j] != *a,
        decreases n - i,
    {
        if v[i] == *a {
            proof {
                lemma_account_eq_is_view_eq(v@[i as int], *a);
                lemma_remove_first_at(v@, *a, i as int);
            }
            v.remove(i);
            return;
        }
        i += 1;
    }
    proof {
        lemma_remove_first_absent(v@, *a);
    }
}

/// The registry's state.
pub struct HighlightedPizzas {
    /// The deploying caller; the only identity allowed to mutate.
    pub created_by: AccountId,
    /// Highlighted tips: submitter to tip id, at most one per submitter.
    pub highlighted_pizzas: AccountMap<u32>,
    /// Highlighted content: author to content id, a namespace of its own.
    pub highlighted_content: AccountMap<u32>,
    /// Insertion-ordered audit list across both namespaces.
    pub highlighted_ids: Vec<AccountId>,
    /// The ordered, append-only log of emitted events.
    pub events: Vec<RegistryEvent>,
}

/// `post` is `pre` after accepting a tip highlight for `from`.
pub open spec fn add_commits(
    pre: HighlightedPizzas,
    post: HighlightedPizzas,
    from: AccountId,
    to: AccountId,
    id: u32,
    pizzas: u32,
) -> bool {
    &&& post.created_by == pre.created_by
    &&& post.highlighted_pizzas@ == pre.highlighted_pizzas@.insert(from, id)
    &&& post.highlighted_content@ == pre.highlighted_content@
    &&& post.highlighted_ids@ == pre.highlighted_ids@.push(from)
    &&& post.events@ == pre.events@.push(RegistryEvent::PizzaHighlighted(
        (PizzaHighlighted { from, to, id, pizzas }),
    ))
}

/// `post` is `pre` after accepting a content highlight for `author`.
pub open spec fn add_content_commits(
    pre: HighlightedPizzas,
    post: HighlightedPizzas,
    author: AccountId,
    id: u32,
) -> bool {
    &&& post.created_by == pre.created_by
    &&& post.highlighted_pizzas@ == pre.highlighted_pizzas@
    &&& post.highlighted_content@ == pre.highlighted_content@.insert(author, id)
    &&& post.highlighted_ids@ == pre.highlighted_ids@.push(author)
    &&& post.events@ == pre.events@.push(RegistryEvent::ContentHighlighted(
        (ContentHighlighted { author, id }),
    ))
}

/// `post` is `pre` after accepting the removal of `from`'s tip highlight.
pub open spec fn delete_commits(
    pre: HighlightedPizzas,
    post: HighlightedPizzas,
    from: AccountId,
) -> bool {
    &&& post.created_by == pre.created_by
    &&& post.highlighted_pizzas@ == pre.highlighted_pizzas@.remove(from)
    &&& post.highlighted_content@ == pre.highlighted_content@
    &&& post.highlighted_ids@ == remove_first(pre.highlighted_ids@, from)
    &&& post.events@ == pre.events@.push(RegistryEvent::HighlightRemoved(
        (HighlightRemoved { author: from }),
    ))
}

/// `post` is `pre` after accepting the removal of `author`'s content
/// highlight.
pub open spec fn delete_content_commits(
    pre: HighlightedPizzas,
    post: HighlightedPizzas,
    author: AccountId,
) -> bool {
    &&& post.created_by == pre.created_by
    &&& post.highlighted_pizzas@ == pre.highlighted_pizzas@
    &&& post.highlighted_content@ == pre.highlighted_content@.remove(author)
    &&& post.highlighted_ids@ == remove_first(pre.highlighted_ids@, author)
    &&& post.events@ == pre.events@.push(RegistryEvent::HighlightRemoved(
        (HighlightRemoved { author }),
    ))
}

impl HighlightedPizzas {
    /// Internal consistency of the two highlight maps.
    pub open spec fn wf(&self) -> bool {
        &&& self.highlighted_pizzas.wf()
        &&& self.highlighted_content.wf()
    }

    /// How the registry answers a tip-highlight request: the access rule
    /// first, then the duplicate check, in the tip namespace.
    pub open spec fn add_outcome(&self, caller: AccountId, from: AccountId) -> Result<
        (),
        HighlightedPizzasError,
    > {
        if caller != self.created_by {
            Err(HighlightedPizzasError::AccessDenied)
        } else if self.highlighted_pizzas@.contains_key(from) {
            Err(HighlightedPizzasError::AlreadyHighlighted)
        } else {
            Ok(())
        }
    }

    /// The same rule in the content namespace.
    pub open spec fn add_content_outcome(&self, caller: AccountId, author: AccountId) -> Result<
        (),
        HighlightedPizzasError,
    > {
        if caller != self.created_by {
            Err(HighlightedPizzasError::AccessDenied)
        } else if self.highlighted_content@.contains_key(author) {
            Err(HighlightedPizzasError::AlreadyHighlighted)
        } else {
            Ok(())
        }
    }

    /// How the registry answers a tip-highlight removal.
    pub open spec fn delete_outcome(&self, caller: AccountId, from: AccountId) -> Result<
        (),
        HighlightedPizzasError,
    > {
        if caller != self.created_by {
            Err(HighlightedPizzasError::AccessDenied)
        } else if !self.highlighted_pizzas@.contains_key(from) {
            Err(HighlightedPizzasError::HighlightNotFound)
        } else {
            Ok(())
        }
    }

    /// How the registry answers a content-highlight removal.
    pub open spec fn delete_content_outcome(&self, caller: AccountId, author: AccountId) -> Result<
        (),
        HighlightedPizzasError,
    > {
        if caller != self.created_by {
            Err(HighlightedPizzasError::AccessDenied)
        } else if !self.highlighted_content@.contains_key(author) {
            Err(HighlightedPizzasError::HighlightNotFound)
        } else {
            Ok(())
        }
    }

    /// Creates a registry owned by the deploying caller.
    pub fn new(caller: AccountId) -> (r: HighlightedPizzas)
        ensures
            r.wf(),
            r.created_by == caller,
            r.highlighted_pizzas@ == Map::<AccountId, u32>::empty(),
            r.highlighted_content@ == Map::<AccountId, u32>::empty(),
            r.highlighted_ids@.len() == 0,
            r.events@.len() == 0,
    {
        HighlightedPizzas {
            created_by: caller,
            highlighted_pizzas: AccountMap::new(),
            highlighted_content: AccountMap::new(),
            highlighted_ids: Vec::new(),
            events: Vec::new(),
        }
    }

    /// Highlights `from`'s tip.  Rejects a non-owner caller with
    /// `AccessDenied` whatever the arguments, and an identity already
    /// highlighted in this namespace with `AlreadyHighlighted`; a rejected
    /// call changes nothing.
    pub fn add(
        &mut self,
        caller: AccountId,
        from: AccountId,
        to: AccountId,
        id: u32,
        pizzas: u32,
    ) -> (r: Result<(), HighlightedPizzasError>)
        requires
            old(self).wf(),
        ensures
            final(self).wf(),
            r == old(self).add_outcome(caller, from),
            r is Ok ==> add_commits(*old(self), *final(self), from, to, id, pizzas),
            r is Err ==> *final(self) == *old(self),
    {
        let authorized = caller == self.created_by;
        proof {
            lemma_account_eq_is_view_eq(caller, self.created_by);
        }
        if !authorized {
            return Err(HighlightedPizzasError::AccessDenied);
        }
        if self.highlighted_pizzas.contains(&from) {
            return Err(HighlightedPizzasError::AlreadyHighlighted);
        }
        self.highlighted_pizzas.insert(from, id);
        self.highlighted_ids.push(from);
        self.events.push(RegistryEvent::PizzaHighlighted(PizzaHighlighted {
            from,
            to,
            id,
            pizzas,
        }));
        Ok(())
    }

    /// Highlights `author`'s content, under the same access and duplicate
    /// rules, in the content namespace.
    pub fn add_content(&mut self, caller: AccountId, author: AccountId, id: u32) -> (r: Result<
        (),
        HighlightedPizzasError,
    >)
        requires
            old(self).wf(),
        ensures
            final(self).wf(),
            r == old(self).add_content_outcome(caller, author),
            r is Ok ==> add_content_commits(*old(self), *final(self), author, id),
            r is Err ==> *final(self) == *old(self),
    {
        let authorized = caller == self.created_by;
        proof {
            lemma_account_eq_is_view_eq(caller, self.created_by);
        }
        if !authorized {
            return Err(HighlightedPizzasError::AccessDenied);
        }
        if self.highlighted_content.contains(&author) {
            return Err(HighlightedPizzasError::AlreadyHighlighted);
        }
        self.highlighted_content.insert(author, id);
        self.highlighted_ids.push(author);
        self.events.push(RegistryEvent::ContentHighlighted(ContentHighlighted { author, id }));
        Ok(())
    }

    /// The id of `from`'s highlighted tip, if any.  Reads are public.
    pub fn get_highlighted_pizzas(&self, from: AccountId) -> (r: Option<u32>)
        requires
            self.wf(),
        ensures
            r == if self.highlighted_pizzas@.contains_key(from) {
                Some(self.highlighted_pizzas@[from])
            } else {
                None::<u32>
            },
    {
        self.highlighted_pizzas.get(&from)
    }

    /// The id of `author`'s highlighted content, if any.  Reads are public.
    pub fn get_content_by_author(&self, author: AccountId) -> (r: Option<u32>)
        requires
            self.wf(),
        ensures
            r == if self.highlighted_content@.contains_key(author) {
                Some(self.highlighted_content@[author])
            } else {
                None::<u32>
            },
    {
        self.highlighted_content.get(&author)
    }

    /// Removes `from`'s tip highlight.  Rejects a non-owner caller with
    /// `AccessDenied`, and an identity with no highlight in this namespace
    /// with `HighlightNotFound`; a rejected call changes nothing.
    pub fn delete_tip_by_author(&mut self, caller: AccountId, from: AccountId) -> (r: Result<
        (),
        HighlightedPizzasError,
    >)
        requires
            old(self).wf(),
        ensures
            final(self).wf(),
            r == old(self).delete_outcome(caller, from),
            r is Ok ==> delete_commits(*old(self), *final(self), from),
            r is Err ==> *final(self) == *old(self),
    {
        let authorized = caller == self.created_by;
        proof {
            lemma_account_eq_is_view_eq(caller, self.created_by);
        }
        if !authorized {
            return Err(HighlightedPizzasError::AccessDenied);
        }
        if !self.highlighted_pizzas.contains(&from) {
            return Err(HighlightedPizzasError::HighlightNotFound);
        }
        self.highlighted_pizzas.remove(&from);
        remove_first_account(&mut self.highlighted_ids, &from);
        self.events.push(RegistryEvent::HighlightRemoved(HighlightRemoved { author: from }));
        Ok(())
    }

    /// Removes `author`'s content highlight, under the same rules.
    pub fn delete_content_by_author(&mut self, caller: AccountId, author: AccountId) -> (r: Result<
        (),
        HighlightedPizzasError,
    >)
        requires
            old(self).wf(),
        ensures
            final(self).wf(),
            r == old(self).delete_content_outcome(caller, author),
            r is Ok ==> delete_content_commits(*old(self), *final(self), author),
            r is Err ==> *final(self) == *old(self),
    {
        let authorized = caller == self.created_by;
        proof {
            lemma_account_eq_is_view_eq(caller, self.created_by);
        }
        if !authorized {
            return Err(HighlightedPizzasError::AccessDenied);
        }
        if !self.highlighted_content.contains(&author) {
            return Err(HighlightedPizzasError::HighlightNotFound);
        }
        self.highlighted_content.remove(&author);
        remove_first_account(&mut self.highlighted_ids, &author);
        self.events.push(RegistryEvent::HighlightRemoved(HighlightRemoved { author }));
        Ok(())
    }

    /// A copy of the audit list across both namespaces.  Reads are public.
    pub fn list_highlighted(&self) -> (r: Vec<AccountId>)
        ensures
            r@ == self.highlighted_ids@,
    {
        let n = self.highlighted_ids.len();
        let mut r: Vec<AccountId> = Vec::new();
        let mut i: usize = 0;
        while i < n
            invariant
                n == self.highlighted_ids@.len(),
                i <= n,
                r@ == self.highlighted_ids@.subrange(0, i as int),
            decreases n - i,
        {
            r.push(self.highlighted_ids[i]);
            proof {
                assert(r@ =~= self.highlighted_ids@.subrange(0, i + 1));
            }
            i += 1;
        }
        proof {
            assert(r@ =~= self.highlighted_ids@);
        }
        r
    }
}

/// A mutating call from any identity other than the owner is answered
/// `AccessDenied`, whatever its arguments and whatever the registry holds.
pub proof fn lemma_non_owner_always_denied(
    r: HighlightedPizzas,
    caller: AccountId,
    from: AccountId,
    author: AccountId,
)
    requires
        caller != r.created_by,
    ensures
        r.add_outcome(caller, from) == Err::<(), HighlightedPizzasError>(
            HighlightedPizzasError::AccessDenied,
        ),
        r.add_content_outcome(caller, author) == Err::<(), HighlightedPizzasError>(
            HighlightedPizzasError::AccessDenied,
        ),
        r.delete_outcome(caller, from) == Err::<(), HighlightedPizzasError>(
            HighlightedPizzasError::AccessDenied,
        ),
        r.delete_content_outcome(caller, author) == Err::<(), HighlightedPizzasError>(
            HighlightedPizzasError::AccessDenied,
        ),
{
}

/// Per identity and namespace the highlight state machine walks absent to
/// highlighted and back: after an accepted add and an accepted delete, the
/// delete was owed, and adding the same identity again is accepted.
pub proof fn lemma_rehighlight_after_delete(
    r0: HighlightedPizzas,
    r1: HighlightedPizzas,
    r2: HighlightedPizzas,
    caller: AccountId,
    from: AccountId,
    to: AccountId,
    id: u32,
    pizzas: u32,
)
    requires
        r0.add_outcome(caller, from) is Ok,
        add_commits(r0, r1, from, to, id, pizzas),
        delete_commits(r1, r2, from),
    ensures
        r1.delete_outcome(caller, from) is Ok,
        r2.add_outcome(caller, from) is Ok,
{
    assert(r1.highlighted_pizzas@.contains_key(from));
    assert(!r2.highlighted_pizzas@.contains_key(from));
}

} // verus!
