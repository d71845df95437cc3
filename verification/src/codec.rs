//! The wire encoding of the cross-module call interface.
//!
//! Call arguments travel as fixed-width values: a four-byte big-endian
//! selector, then each argument in its binary form — an identity as its 32
//! bytes, a 32-bit integer as its four little-endian bytes.  Argument
//! encoding is delegated to the codec the call interface is built on;
//! decoding, on the receiving side, is the module's own verified logic.

use crate::account::AccountId;
use crate::errors::HighlightedPizzasError;
use vstd::prelude::*;

verus! {

/// The four little-endian bytes of a 32-bit integer.
pub open spec fn u32_le_bytes(x: u32) -> Seq<u8> {
    seq![
        (x % 256) as u8,
        ((x / 256) % 256) as u8,
        ((x / 65536) % 256) as u8,
        ((x / 16777216) % 256) as u8,
    ]
}

/// The four big-endian bytes of a 32-bit integer.
pub open spec fn u32_be_bytes(x: u32) -> Seq<u8> {
    seq![
        ((x / 16777216) % 256) as u8,
        ((x / 65536) % 256) as u8,
        ((x / 256) % 256) as u8,
        (x % 256) as u8,
    ]
}

/// A 32-bit integer is determined by its four bytes.
pub proof fn lemma_u32_le_bytes_injective(x: u32, y: u32)
    requires
        u32_le_bytes(x) == u32_le_bytes(y),
    ensures
        x == y,
{
    assert(u32_le_bytes(x)[0] == u32_le_bytes(y)[0]);
    assert(u32_le_bytes(x)[1] == u32_le_bytes(y)[1]);
    assert(u32_le_bytes(x)[2] == u32_le_bytes(y)[2]);
    assert(u32_le_bytes(x)[3] == u32_le_bytes(y)[3]);
    assert(x % 256 == y % 256 && (x / 256) % 256 == (y / 256) % 256
        && (x / 65536) % 256 == (y / 65536) % 256
        && (x / 16777216) % 256 == (y / 16777216) % 256 ==> x == y) by (bit_vector);
}

/// A 32-bit integer is determined by its four big-endian bytes.
pub proof fn lemma_u32_be_bytes_injective(x: u32, y: u32)
    requires
        u32_be_bytes(x) == u32_be_bytes(y),
    ensures
        x == y,
{
    assert(u32_be_bytes(x)[0] == u32_be_bytes(y)[0]);
    assert(u32_be_bytes(x)[1] == u32_be_bytes(y)[1]);
    assert(u32_be_bytes(x)[2] == u32_be_bytes(y)[2]);
    assert(u32_be_bytes(x)[3] == u32_be_bytes(y)[3]);
    assert(x % 256 == y % 256 && (x / 256) % 256 == (y / 256) % 256
        && (x / 65536) % 256 == (y / 65536) % 256
        && (x / 16777216) % 256 == (y / 16777216) % 256 ==> x == y) by (bit_vector);
}

/// Four bytes reassemble into the integer they came from.
proof fn lemma_u32_from_le_bytes(b0: u8, b1: u8, b2: u8, b3: u8, x: u32)
    requires
        x == b0 as u32 + b1 as u32 * 256 + b2 as u32 * 65536 + b3 as u32 * 16777216,
    ensures
        u32_le_bytes(x) =~= seq![b0, b1, b2, b3],
{
    assert(x % 256 == b0 as u32 && (x / 256) % 256 == b1 as u32
        && (x / 65536) % 256 == b2 as u32 && (x / 16777216) % 256 == b3 as u32)
        by (bit_vector)
        requires
            x == b0 as u32 + b1 as u32 * 256 + b2 as u32 * 65536 + b3 as u32 * 16777216,
    ;
}

/// Relies on `parity_scale_codec`'s `Encode` for `u32`: the encoding is the
/// integer's four little-endian bytes.
#[verifier::external_body]
pub fn scale_encode_u32(x: u32) -> (r: Vec<u8>)
    ensures
        r@ == u32_le_bytes(x),
{
    parity_scale_codec::Encode::encode(&x)
}

/// Relies on `parity_scale_codec`'s `Encode` for `[u8; 32]`: a fixed-size
/// byte array encodes as its bytes in order, with no length prefix.
#[verifier::external_body]
pub fn scale_encode_account(a: &AccountId) -> (r: Vec<u8>)
    ensures
        r@ == a@,
{
    parity_scale_codec::Encode::encode(a.bytes())
}

/// Appends the four big-endian bytes of `x`, as a selector stands on the wire.
pub fn push_u32_be(out: &mut Vec<u8>, x: u32)
    ensures
        final(out)@ == old(out)@ + u32_be_bytes(x),
{
    out.push(((x / 16777216) % 256) as u8);
    out.push(((x / 65536) % 256) as u8);
    out.push(((x / 256) % 256) as u8);
    out.push((x % 256) as u8);
    proof {
        assert(out@ =~= old(out)@ + u32_be_bytes(x));
    }
}

/// Reads the little-endian 32-bit integer at `at`.
pub fn take_u32_le(input: &Vec<u8>, at: usize) -> (r: u32)
    requires
        at + 4 <= input@.len(),
    ensures
        u32_le_bytes(r) == input@.subrange(at as int, at as int + 4),
{
    let n = input.len();
    let b0 = input[at];
    let b1 = input[at + 1];
    let b2 = input[at + 2];
    let b3 = input[at + 3];
    let r: u32 = b0 as u32 + b1 as u32 * 256 + b2 as u32 * 65536 + b3 as u32 * 16777216;
    proof {
        lemma_u32_from_le_bytes(b0, b1, b2, b3, r);
        assert(input@.subrange(at as int, at as int + 4) =~= seq![b0, b1, b2, b3]);
    }
    r
}

/// Reads the big-endian 32-bit integer at `at`.
pub fn take_u32_be(input: &Vec<u8>, at: usize) -> (r: u32)
    requires
        at + 4 <= input@.len(),
    ensures
        u32_be_bytes(r) == input@.subrange(at as int, at as int + 4),
{
    let n = input.len();
    let b3 = input[at];
    let b2 = input[at + 1];
    let b1 = input[at + 2];
    let b0 = input[at + 3];
    let r: u32 = b0 as u32 + b1 as u32 * 256 + b2 as u32 * 65536 + b3 as u32 * 16777216;
    proof {
        lemma_u32_from_le_bytes(b0, b1, b2, b3, r);
        assert(u32_be_bytes(r) =~= seq![b3, b2, b1, b0]);
        assert(input@.subrange(at as int, at as int + 4) =~= seq![b3, b2, b1, b0]);
    }
    r
}

/// Reads the 32-byte identity at `at`.
pub fn take_account(input: &Vec<u8>, at: usize) -> (r: AccountId)
    requires
        at + 32 <= input@.len(),
    ensures
        r@ == input@.subrange(at as int, at as int + 32),
{
    let n = input.len();
    let mut bytes: [u8; 32] = [0; 32];
    let mut i: usize = 0;
    while i < 32
        invariant
            at + 32 <= n == input@.len(),
            i <= 32,
            forall|j: int| 0 <= j < i ==> bytes@[j] == input@[at + j],
        decreases 32 - i,
    {
        bytes[i] = input[at + i];
        i += 1;
    }
    let r = AccountId::new(bytes);
    proof {
        assert(r@ =~= input@.subrange(at as int, at as int + 32));
    }
    r
}

/// The wire form of the registry's answer to a mutating call: the variant
/// index of the result, then, on rejection, the variant index of the error.
pub open spec fn highlight_result_bytes(res: Result<(), HighlightedPizzasError>) -> Seq<u8> {
    match res {
        Ok(()) => seq![0u8],
        Err(HighlightedPizzasError::AlreadyHighlighted) => seq![1u8, 0u8],
        Err(HighlightedPizzasError::HighlightNotFound) => seq![1u8, 1u8],
        Err(HighlightedPizzasError::AccessDenied) => seq![1u8, 2u8],
    }
}

/// Writes the registry's answer in its wire form.
pub fn encode_highlight_result(res: &Result<(), HighlightedPizzasError>) -> (r: Vec<u8>)
    ensures
        r@ == highlight_result_bytes(*res),
{
    let mut out: Vec<u8> = Vec::new();
    match res {
        Ok(()) => {
            out.push(0);
        }
        Err(e) => {
            out.push(1);
            match e {
                HighlightedPizzasError::AlreadyHighlighted => out.push(0),
                HighlightedPizzasError::HighlightNotFound => out.push(1),
                HighlightedPizzasError::AccessDenied => out.push(2),
            }
        }
    }
    proof {
        assert(out@ =~= highlight_result_bytes(*res));
    }
    out
}

/// The wire form of an optional 32-bit value: the variant index, then, when
/// present, the value's little-endian bytes.
pub open spec fn option_u32_bytes(o: Option<u32>) -> Seq<u8> {
    match o {
        None => seq![0u8],
        Some(v) => seq![1u8] + u32_le_bytes(v),
    }
}

/// Writes an optional 32-bit value in its wire form.
pub fn encode_option_u32(o: &Option<u32>) -> (r: Vec<u8>)
    ensures
        r@ == option_u32_bytes(*o),
{
    let mut out: Vec<u8> = Vec::new();
    match o {
        None => {
            out.push(0);
        }
        Some(v) => {
            out.push(1);
            out.push((*v % 256) as u8);
            out.push(((*v / 256) % 256) as u8);
            out.push(((*v / 65536) % 256) as u8);
            out.push(((*v / 16777216) % 256) as u8);
        }
    }
    proof {
        assert(out@ =~= option_u32_bytes(*o));
    }
    out
}

/// The registry answer a byte sequence stands for, if any.
pub open spec fn parse_highlight_result(b: Seq<u8>) -> Option<Result<(), HighlightedPizzasError>> {
    if b.len() == 1 && b[0] == 0 {
        Some(Ok(()))
    } else if b.len() == 2 && b[0] == 1 && b[1] == 0 {
        Some(Err(HighlightedPizzasError::AlreadyHighlighted))
    } else if b.len() == 2 && b[0] == 1 && b[1] == 1 {
        Some(Err(HighlightedPizzasError::HighlightNotFound))
    } else if b.len() == 2 && b[0] == 1 && b[1] == 2 {
        Some(Err(HighlightedPizzasError::AccessDenied))
    } else {
        None
    }
}

/// Writing an answer and reading it back yields the answer.
pub proof fn lemma_highlight_result_roundtrip(res: Result<(), HighlightedPizzasError>)
    ensures
        parse_highlight_result(highlight_result_bytes(res)) == Some(res),
{
    let b = highlight_result_bytes(res);
    match res {
        Ok(u) => {
            // the unit type has one value, so `res` is `Ok(())` itself
            assert(u == ());
        }
        Err(e) => {
            assert(b[0] == 1);
            match e {
                HighlightedPizzasError::AlreadyHighlighted => assert(b[1] == 0),
                HighlightedPizzasError::HighlightNotFound => assert(b[1] == 1),
                HighlightedPizzasError::AccessDenied => assert(b[1] == 2),
            }
        }
    }
}

/// Reads a registry answer back from its wire form; `None` on bytes that no
/// answer encodes to.
pub fn decode_highlight_result(input: &Vec<u8>) -> (r: Option<Result<(), HighlightedPizzasError>>)
    ensures
        r == parse_highlight_result(input@),
{
    if input.len() == 1 && input[0] == 0 {
        Some(Ok(()))
    } else if input.len() == 2 && input[0] == 1 && input[1] == 0 {
        Some(Err(HighlightedPizzasError::AlreadyHighlighted))
    } else if input.len() == 2 && input[0] == 1 && input[1] == 1 {
        Some(Err(HighlightedPizzasError::HighlightNotFound))
    } else if input.len() == 2 && input[0] == 1 && input[1] == 2 {
        Some(Err(HighlightedPizzasError::AccessDenied))
    } else {
        None
    }
}

} // verus!
