//! Addresses and account references: the caller-supplied material that a raw
//! call carries, and the byte-level equality test the sentinel rule rests on.

use vstd::prelude::*;

verus! {

/// The number of bytes in a fixed-width address.
pub const ADDRESS_LEN: usize = 32;

/// A fixed-width opaque address identifying a participant or a program.
#[derive(Debug, PartialEq, Eq)]
pub struct Address {
    bytes: Vec<u8>,
}

impl View for Address {
    type V = Seq<u8>;

    closed spec fn view(&self) -> Seq<u8> {
        self.bytes@
    }
}

impl Address {
    /// An address is well formed when it has exactly the fixed width.
    pub open spec fn wf(&self) -> bool {
        self@.len() == ADDRESS_LEN
    }

    /// Builds an address from its raw bytes.
    pub fn new(bytes: Vec<u8>) -> (a: Address)
        requires
            bytes@.len() == ADDRESS_LEN,
        ensures
            a@ == bytes@,
            a.wf(),
    {
        Address { bytes }
    }

    /// The raw bytes of the address.
    pub fn bytes(&self) -> (b: &Vec<u8>)
        ensures
            b@ == self@,
    {
        &self.bytes
    }

    /// A byte-for-byte copy of the address.
    pub fn duplicate(&self) -> (a: Address)
        ensures
            a@ == self@,
            a.wf() == self.wf(),
    {
        Address { bytes: copy_bytes(&self.bytes) }
    }
}

/// Byte-for-byte address equality, the only comparison the protocol makes;
/// signer and writable flags never take part in it.
pub fn addr_eq(a: &Address, b: &Address) -> (r: bool)
    ensures
        r == (a@ == b@),
{
    let n = a.bytes.len();
    if n != b.bytes.len() {
        return false;
    }
    let mut i: usize = 0;
    while i < n
        invariant
            n == a@.len(),
            n == b@.len(),
            i <= n,
            forall|j: int| 0 <= j < i ==> a@[j] == b@[j],
        decreases n - i,
    {
        if a.bytes[i] != b.bytes[i] {
            return false;
        }
        i += 1;
    }
    proof {
        assert(a@ =~= b@);
    }
    true
}

/// One element of an account list: an address plus signer/writable flags.
#[derive(Debug, PartialEq, Eq)]
pub struct AccountRef {
    pub address: Address,
    pub is_signer: bool,
    pub is_writable: bool,
}

/// The mathematical value of an [`AccountRef`].
pub ghost struct AccountVal {
    pub address: Seq<u8>,
    pub is_signer: bool,
    pub is_writable: bool,
}

impl View for AccountRef {
    type V = AccountVal;

    open spec fn view(&self) -> AccountVal {
        AccountVal { address: self.address@, is_signer: self.is_signer, is_writable: self.is_writable }
    }
}

impl AccountRef {
    /// Builds an account reference from its parts.
    pub fn new(address: Address, is_signer: bool, is_writable: bool) -> (a: AccountRef)
        ensures
            a@ == (AccountVal { address: address@, is_signer, is_writable }),
    {
        AccountRef { address, is_signer, is_writable }
    }

    /// A copy of the reference; binding hands out such copies and never
    /// mutates or reorders the caller's list.
    pub fn duplicate(&self) -> (a: AccountRef)
        ensures
            a@ == self@,
    {
        AccountRef {
            address: self.address.duplicate(),
            is_signer: self.is_signer,
            is_writable: self.is_writable,
        }
    }
}

/// The values of a sequence of account references.
pub open spec fn account_views(s: Seq<AccountRef>) -> Seq<AccountVal> {
    s.map_values(|a: AccountRef| a@)
}

/// A fresh vector holding the same bytes.
pub fn copy_bytes(v: &Vec<u8>) -> (r: Vec<u8>)
    ensures
        r@ == v@,
{
    let mut r: Vec<u8> = Vec::new();
    let mut i: usize = 0;
    while i < v.len()
        invariant
            i <= v@.len(),
            r@ == v@.take(i as int),
        decreases v@.len() - i,
    {
        r.push(v[i]);
        proof {
            assert(r@ =~= v@.take(i + 1 as int));
        }
        i += 1;
    }
    proof {
        assert(r@ =~= v@);
    }
    r
}

} // verus!
