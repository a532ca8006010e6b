//! Principals: the identities that own toys and call operations.

use vstd::prelude::*;
use crate::keys::{text_before, text_precedes, lemma_text_order, Key};

verus! {

/// An identity that the host has validated: an owner, a caller, or the
/// address of a customized toy. Its view is its text.
#[derive(Debug, PartialEq, Eq)]
pub struct Principal {
    text: String,
}

impl View for Principal {
    type V = Seq<char>;

    closed spec fn view(&self) -> Seq<char> {
        self.text@
    }
}

impl Clone for Principal {
    fn clone(&self) -> (copy: Self)
        ensures
            copy@ == self@,
    {
        Principal { text: self.text.clone() }
    }
}

impl Principal {
    /// The principal with the given text. The library does not validate the
    /// text: whoever calls this vouches for it.
    pub fn new(text: String) -> (principal: Self)
        ensures
            principal@ == text@,
    {
        Principal { text }
    }

    /// The text of the principal.
    pub fn as_string(&self) -> (text: &String)
        ensures
            text@ == self@,
    {
        &self.text
    }

    /// Whether two principals are the same identity.
    pub fn same_as(&self, other: &Principal) -> (same: bool)
        ensures
            same == (self@ == other@),
    {
        self.text == other.text
    }
}

impl Key for Principal {
    open spec fn before(a: Seq<char>, b: Seq<char>) -> bool {
        text_before(a, b)
    }

    proof fn lemma_order() {
        lemma_text_order();
    }

    fn precedes(&self, other: &Self) -> (r: bool) {
        text_precedes(&self.text, &other.text)
    }
}

/// The text of an address that the host's validator accepted, and `None` for
/// one that it rejected.
pub open spec fn address_of(address: Option<Principal>) -> Option<Seq<char>> {
    match address {
        Some(principal) => Some(principal@),
        None => None,
    }
}

} // verus!
