//! The account binder: splits an ordered account list into the prefix that
//! the schema's named slots consume, one position each, and the uninterpreted
//! remaining tail; resolves optional slots through the sentinel convention.

use vstd::prelude::*;
use crate::account::{account_views, addr_eq, AccountRef, AccountVal, Address};
use crate::schema::{Schema, SlotKind};

verus! {

/// A typed slot after binding: the account at its wire position, or absent.
#[derive(Debug, PartialEq, Eq)]
pub enum BoundAccount {
    Present(AccountRef),
    Absent,
}

/// The mathematical value of a [`BoundAccount`].
pub ghost enum BoundVal {
    Present(AccountVal),
    Absent,
}

impl View for BoundAccount {
    type V = BoundVal;

    open spec fn view(&self) -> BoundVal {
        match self {
            BoundAccount::Present(a) => BoundVal::Present(a@),
            BoundAccount::Absent => BoundVal::Absent,
        }
    }
}

/// The values of a sequence of bound slots.
pub open spec fn bound_views(s: Seq<BoundAccount>) -> Seq<BoundVal> {
    s.map_values(|b: BoundAccount| b@)
}

/// Why binding can fail: the account list is shorter than the slot count.
#[derive(Clone, Copy, Debug, PartialEq, Eq)]
pub enum BindError {
    InsufficientAccounts,
}

/// What one slot binds to. An optional slot whose account carries the
/// sentinel address is absent; every other slot holds its account as it
/// stands. The check is address equality only, independent of the signer and
/// writable flags.
pub open spec fn bind_one(slot: SlotKind, account: AccountVal, sentinel: Seq<u8>) -> BoundVal {
    if slot is Optional && account.address == sentinel {
        BoundVal::Absent
    } else {
        BoundVal::Present(account)
    }
}

/// The typed record for a whole account-list prefix: slot `i` is bound to
/// the account at wire position `i`, in declaration order.
pub open spec fn bind_all(slots: Seq<SlotKind>, accounts: Seq<AccountVal>, sentinel: Seq<u8>) -> Seq<BoundVal>
    recommends
        slots.len() <= accounts.len(),
{
    Seq::new(slots.len(), |i: int| bind_one(slots[i], accounts[i], sentinel))
}

/// The outcome of binding: the typed slots and the remaining tail, both in
/// wire order.
#[derive(Debug)]
pub struct Binding {
    pub bound: Vec<BoundAccount>,
    pub remaining: Vec<AccountRef>,
}

/// Binds an ordered account list to a schema's slots.
///
/// The prefix of length `slot_count` is bound one-to-one to the named slots
/// in declaration order; optional slots whose account equals the sentinel
/// address become absent; the rest of the list is handed back unchanged as
/// the remaining accounts. Fails with `InsufficientAccounts`, and only then,
/// when the list is shorter than the slot count. The caller's list is never
/// mutated or reordered.
pub fn bind(accounts: &Vec<AccountRef>, schema: &Schema, sentinel: &Address) -> (r: Result<
    Binding,
    BindError,
>)
    ensures
        accounts@.len() < schema@.slots.len() ==> (r matches Err(e)
            && e == BindError::InsufficientAccounts),
        accounts@.len() >= schema@.slots.len() ==> (r matches Ok(b) && {
            &&& bound_views(b.bound@) == bind_all(schema@.slots, account_views(accounts@), sentinel@)
            &&& account_views(b.remaining@) == account_views(accounts@).skip(schema@.slots.len() as int)
        }),
{
    let n = schema.slot_count();
    if accounts.len() < n {
        return Err(BindError::InsufficientAccounts);
    }
    let slots = schema.slots();
    let mut bound: Vec<BoundAccount> = Vec::new();
    let mut i: usize = 0;
    while i < n
        invariant
            n == schema@.slots.len(),
            accounts@.len() >= n,
            slots@ == schema@.slots,
            i <= n,
            bound@.len() == i,
            forall|j: int| 0 <= j < i ==> #[trigger] bound@[j]@ == bind_one(
                schema@.slots[j],
                accounts@[j]@,
                sentinel@,
            ),
        decreases n - i,
    {
        let a = &accounts[i];
        let b = match slots[i] {
            SlotKind::Optional => {
                if addr_eq(&a.address, sentinel) {
                    BoundAccount::Absent
                } else {
                    BoundAccount::Present(a.duplicate())
                }
            },
            SlotKind::Required => BoundAccount::Present(a.duplicate()),
        };
        bound.push(b);
        i += 1;
    }
    let mut remaining: Vec<AccountRef> = Vec::new();
    let mut k: usize = n;
    while k < accounts.len()
        invariant
            n <= k <= accounts@.len(),
            remaining@.len() == k - n,
            forall|j: int| 0 <= j < k - n ==> #[trigger] remaining@[j]@ == accounts@[n + j]@,
        decreases accounts@.len() - k,
    {
        remaining.push(accounts[k].duplicate());
        k += 1;
    }
    proof {
        assert(bound_views(bound@) =~= bind_all(
            schema@.slots,
            account_views(accounts@),
            sentinel@,
        ));
        assert(account_views(remaining@) =~= account_views(accounts@).skip(
            schema@.slots.len() as int,
        ));
    }
    Ok(Binding { bound, remaining })
}

/// Binding partitions the list: with enough accounts, the typed record has
/// exactly one entry per slot, bound positionally one-to-one, the remaining
/// tail keeps the rest in order, and the two lengths add up to the whole.
pub proof fn lemma_bind_partitions(slots: Seq<SlotKind>, accounts: Seq<AccountVal>, sentinel: Seq<u8>)
    requires
        accounts.len() >= slots.len(),
    ensures
        bind_all(slots, accounts, sentinel).len() == slots.len(),
        accounts.skip(slots.len() as int).len() == accounts.len() - slots.len(),
        bind_all(slots, accounts, sentinel).len() + accounts.skip(slots.len() as int).len()
            == accounts.len(),
        forall|i: int| 0 <= i < slots.len() ==> #[trigger] bind_all(slots, accounts, sentinel)[i]
            == bind_one(slots[i], accounts[i], sentinel),
        forall|i: int| slots.len() <= i < accounts.len() ==> #[trigger] accounts.skip(
            slots.len() as int,
        )[i - slots.len()] == accounts[i],
{
}

/// The sentinel rule: an optional slot bound to an account whose address
/// equals the sentinel is absent; an account with any other address is bound
/// present, as it stands; a required slot is always bound present, never
/// checked against the sentinel.
pub proof fn lemma_optional_sentinel(slot: SlotKind, account: AccountVal, sentinel: Seq<u8>)
    ensures
        slot is Optional && account.address == sentinel ==> bind_one(slot, account, sentinel)
            is Absent,
        account.address != sentinel ==> bind_one(slot, account, sentinel) == BoundVal::Present(
            account,
        ),
        slot is Required ==> bind_one(slot, account, sentinel) == BoundVal::Present(account),
{
}

} // verus!
