//! The records of the customization workshop.

use vstd::prelude::*;
use crate::principal::Principal;
use crate::table::{views, Table};

verus! {

/// A copy of a list of texts.
pub fn clone_texts(texts: &Vec<String>) -> (copy: Vec<String>)
    ensures
        views(copy@) == views(texts@),
{
    let mut copy: Vec<String> = Vec::new();
    let mut i: usize = 0;
    while i < texts.len()
        invariant
            i <= texts.len(),
            copy@.len() == i,
            forall|j: int| 0 <= j < i ==> (#[trigger] copy@[j])@ == texts@[j]@,
        decreases texts.len() - i,
    {
        copy.push(texts[i].clone());
        i += 1;
    }
    assert(views(copy@) =~= views(texts@));
    copy
}

/// A copy of a text that may be absent.
pub fn clone_text(text: &Option<String>) -> (copy: Option<String>)
    ensures
        text_view(copy) == text_view(*text),
{
    match text {
        Some(t) => Some(t.clone()),
        None => None,
    }
}

/// The view of a text that may be absent.
pub open spec fn text_view(text: Option<String>) -> Option<Seq<char>> {
    match text {
        Some(t) => Some(t@),
        None => None,
    }
}

/// What was done to one toy: accessories, upgrades and enhancements in the
/// order in which they were added, and the toy's present appearance.
#[derive(Debug, PartialEq, Eq)]
pub struct ToyCustomization {
    pub toy: Principal,
    pub accessories: Vec<String>,
    pub appearance: Option<String>,
    pub upgrades: Vec<String>,
    pub enhancements: Vec<String>,
}

/// A customization record as contracts see it.
#[verifier::ext_equal]
pub struct CustomizationView {
    pub toy: Seq<char>,
    pub accessories: Seq<Seq<char>>,
    pub appearance: Option<Seq<char>>,
    pub upgrades: Seq<Seq<char>>,
    pub enhancements: Seq<Seq<char>>,
}

impl View for ToyCustomization {
    type V = CustomizationView;

    open spec fn view(&self) -> CustomizationView {
        CustomizationView {
            toy: self.toy@,
            accessories: views(self.accessories@),
            appearance: text_view(self.appearance),
            upgrades: views(self.upgrades@),
            enhancements: views(self.enhancements@),
        }
    }
}

impl Clone for ToyCustomization {
    fn clone(&self) -> (copy: Self)
        ensures
            copy@ == self@,
    {
        ToyCustomization {
            toy: self.toy.clone(),
            accessories: clone_texts(&self.accessories),
            appearance: clone_text(&self.appearance),
            upgrades: clone_texts(&self.upgrades),
            enhancements: clone_texts(&self.enhancements),
        }
    }
}

/// A listing of customization records.
pub type ToyCustomizations = Vec<ToyCustomization>;

/// The repair log of one toy: one marker for each repair, oldest first. Its
/// view is the sequence of the markers.
#[derive(Debug, PartialEq, Eq)]
pub struct RepairHistoryResponse {
    pub repairs: Vec<String>,
}

impl View for RepairHistoryResponse {
    type V = Seq<Seq<char>>;

    open spec fn view(&self) -> Seq<Seq<char>> {
        views(self.repairs@)
    }
}

impl Clone for RepairHistoryResponse {
    fn clone(&self) -> (copy: Self)
        ensures
            copy@ == self@,
    {
        RepairHistoryResponse { repairs: clone_texts(&self.repairs) }
    }
}

/// The enhancements of one toy.
pub type EnhancementResponse = Vec<String>;

/// The workshop: customization records and repair logs, both under the
/// addresses of the toys.
pub struct Workshop {
    pub customized_toys: Table<Principal, ToyCustomization>,
    pub repair_history: Table<Principal, RepairHistoryResponse>,
}

/// The workshop as contracts see it.
#[verifier::ext_equal]
pub struct WorkshopView {
    pub customized_toys: Map<Seq<char>, CustomizationView>,
    pub repair_history: Map<Seq<char>, Seq<Seq<char>>>,
}

impl View for Workshop {
    type V = WorkshopView;

    open spec fn view(&self) -> WorkshopView {
        WorkshopView {
            customized_toys: self.customized_toys@,
            repair_history: self.repair_history@,
        }
    }
}

} // verus!
