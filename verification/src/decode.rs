//! The instruction decoder: validates a raw call's target identity, length
//! and selector prefix, binds its account list, hands the payload to the
//! args codec, and assembles the typed result — fail-fast, in exactly that
//! order, with a distinct error at the first failing check.

use vstd::prelude::*;
use crate::account::{account_views, addr_eq, AccountRef, AccountVal, Address};
use crate::bind::{bind, bind_all, bound_views, Binding, BoundAccount};
use crate::schema::{Schema, SchemaVal};
use crate::selector::SELECTOR_LEN;

verus! {

/// An untyped invocation request: a target identity, an ordered account
/// list, and an opaque byte buffer whose first 8 bytes are the selector.
pub struct RawCall {
    pub target: Address,
    pub accounts: Vec<AccountRef>,
    pub data: Vec<u8>,
}

/// The mathematical value of a [`RawCall`].
pub ghost struct RawCallVal {
    pub target: Seq<u8>,
    pub accounts: Seq<AccountVal>,
    pub data: Seq<u8>,
}

impl View for RawCall {
    type V = RawCallVal;

    open spec fn view(&self) -> RawCallVal {
        RawCallVal {
            target: self.target@,
            accounts: account_views(self.accounts@),
            data: self.data@,
        }
    }
}

/// A raw call reconstructed as a typed view: the bound slots, the decoded
/// args, and the remaining accounts, never produced other than whole.
#[derive(Debug)]
pub struct DecodedCall<T> {
    pub accounts: Vec<BoundAccount>,
    pub args: T,
    pub remaining: Vec<AccountRef>,
}

/// The terminal outcomes of a failed decode, one per check, in check order.
/// `ArgsDecodeFailed` carries the external codec's own error, unchanged.
#[derive(Debug, PartialEq, Eq)]
pub enum DecodeError<E> {
    WrongTarget,
    MalformedCall,
    UnrecognizedSelector,
    InsufficientAccounts,
    ArgsDecodeFailed(E),
}

/// The external args codec: turns the payload bytes that follow the selector
/// into a typed args value, or reports its own error. Implementations are
/// supplied by the caller; the decoder makes no promise about what they
/// return and calls them only after every other check has passed.
pub trait ArgsCodec {
    type Args;

    type Error;

    fn decode_args(&self, payload: &Vec<u8>) -> Result<Self::Args, Self::Error>;
}

/// The call declares the expected target identity.
pub open spec fn target_matches(call: RawCallVal, expected: Seq<u8>) -> bool {
    call.target == expected
}

/// The byte buffer is long enough to hold a selector.
pub open spec fn has_selector(call: RawCallVal) -> bool {
    call.data.len() >= SELECTOR_LEN
}

/// The buffer's selector prefix is the schema's selector.
pub open spec fn selector_matches(call: RawCallVal, schema: SchemaVal) -> bool {
    call.data.subrange(0, SELECTOR_LEN as int) == schema.selector
}

/// The account list covers every named slot.
pub open spec fn enough_accounts(call: RawCallVal, schema: SchemaVal) -> bool {
    call.accounts.len() >= schema.slots.len()
}

/// The args payload: what follows the selector.
pub open spec fn payload_of(call: RawCallVal) -> Seq<u8> {
    call.data.skip(SELECTOR_LEN as int)
}

/// Decodes a raw call against one registered schema.
///
/// Checks run fail-fast in a fixed order — identity, buffer length, selector,
/// account binding, payload decode — and the first failing check decides the
/// error. On success the typed slots and the remaining accounts are exactly
/// what [`bind`] yields with the target's own identity as the sentinel, and
/// the args value is whatever the codec made of the payload bytes.
pub fn decode<C: ArgsCodec>(
    call: &RawCall,
    expected: &Address,
    schema: &Schema,
    codec: &C,
) -> (r: Result<DecodedCall<C::Args>, DecodeError<C::Error>>)
    ensures
        !target_matches(call@, expected@) ==> r matches Err(DecodeError::WrongTarget),
        target_matches(call@, expected@) && !has_selector(call@) ==> r matches Err(
            DecodeError::MalformedCall,
        ),
        target_matches(call@, expected@) && has_selector(call@) && !selector_matches(call@, schema@)
            ==> r matches Err(DecodeError::UnrecognizedSelector),
        target_matches(call@, expected@) && has_selector(call@) && selector_matches(call@, schema@)
            && !enough_accounts(call@, schema@) ==> r matches Err(
            DecodeError::InsufficientAccounts,
        ),
        target_matches(call@, expected@) && has_selector(call@) && selector_matches(call@, schema@)
            && enough_accounts(call@, schema@) ==> {
            ||| (r matches Ok(dc) && {
                &&& bound_views(dc.accounts@) == bind_all(schema@.slots, call@.accounts, expected@)
                &&& account_views(dc.remaining@) == call@.accounts.skip(schema@.slots.len() as int)
            })
            ||| r matches Err(DecodeError::ArgsDecodeFailed(_))
        },
{
    let (binding, payload) = match decode_frame::<C::Error>(call, expected, schema) {
        Ok(p) => p,
        Err(e) => {
            return Err(e);
        },
    };
    let outcome = codec.decode_args(&payload);
    assemble(binding, outcome)
}

/// The first four decode steps — identity, buffer length, selector, account
/// binding — plus the payload extraction, with nothing left open: each error
/// comes at exactly the check the fail-fast order reaches first, and on
/// success the bound slots, the remaining accounts and the payload bytes are
/// pinned down. The error type is free, so the outcome can feed any codec's
/// pipeline.
pub fn decode_frame<E>(call: &RawCall, expected: &Address, schema: &Schema) -> (r: Result<
    (Binding, Vec<u8>),
    DecodeError<E>,
>)
    ensures
        !target_matches(call@, expected@) ==> r matches Err(DecodeError::WrongTarget),
        target_matches(call@, expected@) && !has_selector(call@) ==> r matches Err(
            DecodeError::MalformedCall,
        ),
        target_matches(call@, expected@) && has_selector(call@) && !selector_matches(call@, schema@)
            ==> r matches Err(DecodeError::UnrecognizedSelector),
        target_matches(call@, expected@) && has_selector(call@) && selector_matches(call@, schema@)
            && !enough_accounts(call@, schema@) ==> r matches Err(
            DecodeError::InsufficientAccounts,
        ),
        target_matches(call@, expected@) && has_selector(call@) && selector_matches(call@, schema@)
            && enough_accounts(call@, schema@) ==> (r matches Ok(p) && {
            &&& bound_views(p.0.bound@) == bind_all(schema@.slots, call@.accounts, expected@)
            &&& account_views(p.0.remaining@) == call@.accounts.skip(schema@.slots.len() as int)
            &&& p.1@ == payload_of(call@)
        }),
{
    if !addr_eq(&call.target, expected) {
        return Err(DecodeError::WrongTarget);
    }
    if call.data.len() < SELECTOR_LEN {
        return Err(DecodeError::MalformedCall);
    }
    if !selector_prefix_eq(&call.data, schema.selector_bytes()) {
        return Err(DecodeError::UnrecognizedSelector);
    }
    let binding = match bind(&call.accounts, schema, expected) {
        Ok(b) => b,
        Err(_) => {
            return Err(DecodeError::InsufficientAccounts);
        },
    };
    let payload = payload_bytes(&call.data);
    Ok((binding, payload))
}

/// The last two decode steps, for any outcome the codec can have handed
/// back: a codec failure is wrapped as `ArgsDecodeFailed` with the codec's
/// error unchanged; a codec success is assembled whole with the bound slots
/// and the remaining accounts.
pub fn assemble<T, E>(binding: Binding, outcome: Result<T, E>) -> (r: Result<
    DecodedCall<T>,
    DecodeError<E>,
>)
    ensures
        outcome matches Ok(t) ==> (r matches Ok(dc) && dc.accounts@ == binding.bound@
            && dc.remaining@ == binding.remaining@ && dc.args == t),
        outcome matches Err(e) ==> r == Result::<DecodedCall<T>, DecodeError<E>>::Err(
            DecodeError::ArgsDecodeFailed(e),
        ),
{
    match outcome {
        Ok(t) => Ok(DecodedCall { accounts: binding.bound, args: t, remaining: binding.remaining }),
        Err(e) => Err(DecodeError::ArgsDecodeFailed(e)),
    }
}

/// A codec for callers that defer args decoding: it hands the payload back
/// as raw bytes and never fails.
pub struct RawArgsCodec {}

impl ArgsCodec for RawArgsCodec {
    type Args = Vec<u8>;

    type Error = ();

    fn decode_args(&self, payload: &Vec<u8>) -> Result<Vec<u8>, ()> {
        Ok(crate::account::copy_bytes(payload))
    }
}

/// Whether the buffer's first 8 bytes are exactly the given selector.
fn selector_prefix_eq(data: &Vec<u8>, selector: &Vec<u8>) -> (r: bool)
    requires
        data@.len() >= SELECTOR_LEN,
    ensures
        r == (data@.subrange(0, SELECTOR_LEN as int) == selector@),
{
    if selector.len() != SELECTOR_LEN {
        proof {
            assert(data@.subrange(0, SELECTOR_LEN as int).len() == SELECTOR_LEN);
        }
        return false;
    }
    let mut i: usize = 0;
    while i < SELECTOR_LEN
        invariant
            data@.len() >= SELECTOR_LEN,
            selector@.len() == SELECTOR_LEN,
            i <= SELECTOR_LEN,
            forall|j: int| 0 <= j < i ==> data@[j] == selector@[j],
        decreases SELECTOR_LEN - i,
    {
        if data[i] != selector[i] {
            proof {
                assert(data@.subrange(0, SELECTOR_LEN as int)[i as int] == data@[i as int]);
            }
            return false;
        }
        i += 1;
    }
    proof {
        assert(data@.subrange(0, SELECTOR_LEN as int) =~= selector@);
    }
    true
}

/// A fresh vector holding the payload: the bytes after the selector.
fn payload_bytes(data: &Vec<u8>) -> (r: Vec<u8>)
    requires
        data@.len() >= SELECTOR_LEN,
    ensures
        r@ == data@.skip(SELECTOR_LEN as int),
{
    let mut r: Vec<u8> = Vec::new();
    let mut i: usize = SELECTOR_LEN;
    while i < data.len()
        invariant
            SELECTOR_LEN <= i <= data@.len(),
            r@.len() == i - SELECTOR_LEN,
            forall|j: int| 0 <= j < i - SELECTOR_LEN ==> #[trigger] r@[j] == data@[
                SELECTOR_LEN + j
            ],
        decreases data@.len() - i,
    {
        r.push(data[i]);
        i += 1;
    }
    proof {
        assert(r@ =~= data@.skip(SELECTOR_LEN as int));
    }
    r
}

} // verus!
