//! Call schemas: the fixed description of one call type — its precomputed
//! 8-byte selector and its ordered list of required/optional account slots.
//! A schema is built once, at registration, and read-only afterwards.

use vstd::prelude::*;
use crate::selector::{derive_selector, selector_spec, SELECTOR_LEN};

verus! {

/// Whether a slot must always carry a meaningful account, or may be marked
/// absent through the sentinel convention.
#[derive(Clone, Copy, Debug, PartialEq, Eq)]
pub enum SlotKind {
    Required,
    Optional,
}

/// The mathematical value of a [`Schema`].
pub ghost struct SchemaVal {
    pub selector: Seq<u8>,
    pub slots: Seq<SlotKind>,
}

/// One call type's wire description: slot order is exactly the wire position
/// order, and the selector is derived from the call's declared name.
pub struct Schema {
    selector: Vec<u8>,
    slots: Vec<SlotKind>,
}

impl View for Schema {
    type V = SchemaVal;

    closed spec fn view(&self) -> SchemaVal {
        SchemaVal { selector: self.selector@, slots: self.slots@ }
    }
}

impl Schema {
    /// A schema is well formed when its selector has the fixed width.
    pub open spec fn wf(&self) -> bool {
        self@.selector.len() == SELECTOR_LEN
    }

    /// Registers a call type: derives the selector from the declared name
    /// once, and fixes the ordered slot list.
    pub fn new(call_name: &str, slots: Vec<SlotKind>) -> (s: Schema)
        ensures
            s@.selector == selector_spec(call_name@),
            s@.slots == slots@,
            s.wf(),
    {
        let selector = derive_selector(call_name);
        Schema { selector, slots }
    }

    /// How many wire positions the schema's named slots occupy.
    pub fn slot_count(&self) -> (n: usize)
        ensures
            n == self@.slots.len(),
    {
        self.slots.len()
    }

    /// The ordered slot list.
    pub fn slots(&self) -> (s: &Vec<SlotKind>)
        ensures
            s@ == self@.slots,
    {
        &self.slots
    }

    /// The precomputed selector bytes.
    pub fn selector_bytes(&self) -> (s: &Vec<u8>)
        ensures
            s@ == self@.selector,
    {
        &self.selector
    }
}

} // verus!
