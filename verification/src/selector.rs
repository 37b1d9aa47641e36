//! Method selectors: the 8-byte tag that prefixes a call's byte buffer,
//! derived from the call's declared name by hashing the namespaced,
//! snake-cased form of that name.

use vstd::prelude::*;
use vstd::string::{StrSliceExecFns, StringSliceAdditionalSpecFns};
use sha2::Digest;
use convert_case::{Case, Casing};

verus! {

/// The number of bytes in a method selector.
pub const SELECTOR_LEN: usize = 8;

/// The SHA-256 digest of a byte sequence, as the `sha2` crate computes it.
pub uninterp spec fn sha256_of(bytes: Seq<u8>) -> Seq<u8>;

/// Relies on `sha2::Sha256` (via the `Digest` trait): the SHA-256 digest of
/// the input, 32 bytes, a function of the input bytes alone.
#[verifier::external_body]
fn sha256(bytes: &Vec<u8>) -> (r: Vec<u8>)
    ensures
        r@ == sha256_of(bytes@),
        r@.len() == 32,
{
    sha2::Sha256::digest(bytes.as_slice()).to_vec()
}

/// The snake-case form of a name, as the `convert_case` crate computes it.
pub uninterp spec fn snake_case_of(s: Seq<char>) -> Seq<char>;

/// Relies on `convert_case`'s `Casing::to_case` with `Case::Snake`: the
/// snake-case form of the name, a function of its characters alone.
#[verifier::external_body]
fn to_snake_case(s: &str) -> (r: String)
    ensures
        r@ == snake_case_of(s@),
{
    s.to_case(Case::Snake)
}

/// The bytes hashed for a call name: the UTF-8 of `"global:"` followed by
/// the UTF-8 of the snake-case form of the name.
pub open spec fn selector_preimage(name: Seq<char>) -> Seq<u8> {
    "global:".spec_bytes() + vstd::utf8::encode_utf8(snake_case_of(name))
}

/// The method selector for a call name: the first 8 bytes of the SHA-256
/// digest of the name's preimage.
pub open spec fn selector_spec(name: Seq<char>) -> Seq<u8> {
    sha256_of(selector_preimage(name)).take(SELECTOR_LEN as int)
}

/// Computes the 8-byte method selector for a call's declared name.
///
/// The derivation is total (any name, the empty one included) and pure: the
/// result is a function of the name alone.
pub fn derive_selector(call_name: &str) -> (r: Vec<u8>)
    ensures
        r@ == selector_spec(call_name@),
        r@.len() == SELECTOR_LEN,
{
    let snake: String = to_snake_case(call_name);
    let mut preimage: Vec<u8> = "global:".as_bytes_vec();
    let mut snake_bytes: Vec<u8> = snake.as_str().as_bytes_vec();
    preimage.append(&mut snake_bytes);
    let digest: Vec<u8> = sha256(&preimage);
    let mut sel: Vec<u8> = Vec::new();
    let mut i: usize = 0;
    while i < SELECTOR_LEN
        invariant
            i <= SELECTOR_LEN,
            digest@ == sha256_of(selector_preimage(call_name@)),
            digest@.len() == 32,
            sel@ == digest@.take(i as int),
        decreases SELECTOR_LEN - i,
    {
        sel.push(digest[i]);
        proof {
            assert(sel@ =~= digest@.take(i + 1 as int));
        }
        i += 1;
    }
    sel
}

/// Selector derivation is deterministic: the selector is a function of the
/// call name alone, so deriving twice from equal names yields identical
/// 8-byte selectors. (That distinct names yield distinct selectors is a
/// property of the cryptographic hash, not provable here.)
pub proof fn lemma_selector_deterministic(name1: Seq<char>, name2: Seq<char>)
    requires
        name1 == name2,
    ensures
        selector_spec(name1) == selector_spec(name2),
{
}

} // verus!
