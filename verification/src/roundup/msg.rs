//! The commands and questions of the ownership registry.
//!
//! An address in a message has been put to the host's validator before the
//! message reaches the registry: it is `Some` principal if the validator
//! accepted it and `None` if it did not.

use vstd::prelude::*;
use crate::principal::Principal;
use crate::roundup::state::{Toy, ToyView, Toys};
use crate::table::views;

verus! {

/// Asks for a new registry.
#[derive(Debug, PartialEq, Eq)]
pub struct InstantiateMsg {}

/// A command that changes the registry.
#[derive(Debug, PartialEq, Eq)]
pub enum ExecuteMsg {
    Mint { toy_name: String, owner: Option<Principal> },
    Transfer { toy_id: u64, new_owner: Option<Principal> },
}

/// A question about the registry.
#[derive(Debug, PartialEq, Eq)]
pub enum QueryMsg {
    GetToyInfo { toy_id: u64 },
    ListToysByOwner { owner: Option<Principal> },
}

/// The answer to a question.
#[derive(Debug, PartialEq, Eq)]
pub enum QueryResponse {
    ToyInfo(Toy),
    ToysByOwner(Toys),
}

/// An answer as contracts see it.
pub enum AnswerView {
    ToyInfo(ToyView),
    ToysByOwner(Seq<ToyView>),
}

impl View for QueryResponse {
    type V = AnswerView;

    open spec fn view(&self) -> AnswerView {
        match *self {
            QueryResponse::ToyInfo(toy) => AnswerView::ToyInfo(toy@),
            QueryResponse::ToysByOwner(toys) => AnswerView::ToysByOwner(views(toys@)),
        }
    }
}

} // verus!
