//! Identities: fixed-size opaque byte handles for callers and accounts.

use vstd::prelude::*;

verus! {

/// An account identity: a fixed-size opaque handle, as the chain hands it out.
///
/// The view of an `AccountId` is the sequence of its 32 bytes.
#[derive(Debug, Clone, Copy)]
pub struct AccountId {
    bytes: [u8; 32],
}

impl View for AccountId {
    type V = Seq<u8>;

    closed spec fn view(&self) -> Seq<u8> {
        self.bytes@
    }
}

impl AccountId {
    /// Builds an identity from its raw bytes.
    pub fn new(bytes: [u8; 32]) -> (r: AccountId)
        ensures
            r@ == bytes@,
    {
        AccountId { bytes }
    }

    /// The raw bytes of the identity.
    pub fn bytes(&self) -> (r: &[u8; 32])
        ensures
            r@ == self@,
    {
        &self.bytes
    }
}

impl PartialEq for AccountId {
    fn eq(&self, other: &AccountId) -> (r: bool) {
        let mut i: usize = 0;
        while i < 32
            invariant
                i <= 32,
                forall|j: int| 0 <= j < i ==> self.bytes@[j] == other.bytes@[j],
            decreases 32 - i,
        {
            if self.bytes[i] != other.bytes[i] {
                return false;
            }
            i += 1;
        }
        proof {
            assert(self.bytes@ =~= other.bytes@);
        }
        true
    }
}

impl Eq for AccountId {}

impl vstd::std_specs::cmp::PartialEqSpecImpl for AccountId {
    open spec fn obeys_eq_spec() -> bool {
        true
    }

    open spec fn eq_spec(&self, other: &AccountId) -> bool {
        self@ == other@
    }
}

/// A code reference naming uploaded module code, as the chain hands it out.
///
/// The view of a `CodeHash` is the sequence of its 32 bytes.
#[derive(Debug, Clone, Copy)]
pub struct CodeHash {
    bytes: [u8; 32],
}

impl View for CodeHash {
    type V = Seq<u8>;

    closed spec fn view(&self) -> Seq<u8> {
        self.bytes@
    }
}

impl CodeHash {
    /// Builds a code reference from its raw bytes.
    pub fn new(bytes: [u8; 32]) -> (r: CodeHash)
        ensures
            r@ == bytes@,
    {
        CodeHash { bytes }
    }
}

/// An identity's view always holds exactly its 32 bytes.
pub broadcast proof fn lemma_account_id_len(a: AccountId)
    ensures
        (#[trigger] a@).len() == 32,
{
}

/// Spec-level equality of two identities coincides with equality of their
/// byte views: identities are nothing but their bytes.
pub proof fn lemma_account_eq_is_view_eq(a: AccountId, b: AccountId)
    ensures
        (a == b) <==> (a@ == b@),
{
    if a@ == b@ {
        assert(a.bytes =~= b.bytes);
    }
}

} // verus!
