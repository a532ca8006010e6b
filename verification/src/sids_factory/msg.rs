//! The commands and questions of the customization workshop.
//!
//! The address of a toy in a message has been put to the host's validator
//! before the message reaches the workshop: it is `Some` principal if the
//! validator accepted it and `None` if it did not.

use vstd::prelude::*;
use crate::principal::Principal;
use crate::sids_factory::state::{
    CustomizationView,
    EnhancementResponse,
    RepairHistoryResponse,
    ToyCustomization,
    ToyCustomizations,
};
use crate::table::views;

verus! {

/// Asks for a new, empty workshop.
#[derive(Debug, PartialEq, Eq)]
pub struct InstantiateMsg {}

/// A command that changes the workshop.
#[derive(Debug, PartialEq, Eq)]
pub enum ExecuteMsg {
    AddAccessory { toy: Option<Principal>, accessory: String },
    ChangeAppearance { toy: Option<Principal>, appearance: String },
    UpgradeToy { toy: Option<Principal>, upgrade: String },
    RepairToy { toy: Option<Principal> },
    EnhanceToy { toy: Option<Principal>, enhancement: String },
}

/// A question about the workshop.
#[derive(Debug, PartialEq, Eq)]
pub enum QueryMsg {
    GetToyCustomization { toy: Option<Principal> },
    ListCustomizations { limit: Option<u32> },
    GetRepairHistory { toy: Option<Principal> },
    GetEnhancements { toy: Option<Principal> },
}

/// The answer to a question.
#[derive(Debug, PartialEq, Eq)]
pub enum QueryResponse {
    Customization(ToyCustomization),
    Customizations(ToyCustomizations),
    RepairHistory(RepairHistoryResponse),
    Enhancements(EnhancementResponse),
}

/// An answer as contracts see it.
pub enum AnswerView {
    Customization(CustomizationView),
    Customizations(Seq<CustomizationView>),
    RepairHistory(Seq<Seq<char>>),
    Enhancements(Seq<Seq<char>>),
}

impl View for QueryResponse {
    type V = AnswerView;

    open spec fn view(&self) -> AnswerView {
        match *self {
            QueryResponse::Customization(record) => AnswerView::Customization(record@),
            QueryResponse::Customizations(records) => AnswerView::Customizations(views(records@)),
            QueryResponse::RepairHistory(log) => AnswerView::RepairHistory(log@),
            QueryResponse::Enhancements(texts) => AnswerView::Enhancements(views(texts@)),
        }
    }
}

} // verus!
