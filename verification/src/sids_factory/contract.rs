//! The operations of the customization workshop.
//!
//! Each operation is stated twice: as a spec function on the workshop's view
//! and as an executable function whose contract refers to it.

use vstd::prelude::*;
use cosmwasm_std::{Empty, Response};
use crate::error::ContractError;
use crate::principal::{address_of, Principal};
use crate::response::{
    attributes_of,
    method_key,
    method_response,
    new_response,
    report,
    reported,
    reports_only,
    with_attribute,
    Attributes,
};
use crate::sids_factory::msg::{AnswerView, ExecuteMsg, InstantiateMsg, QueryMsg, QueryResponse};
use crate::sids_factory::state::{
    clone_text,
    clone_texts,
    CustomizationView,
    EnhancementResponse,
    RepairHistoryResponse,
    ToyCustomization,
    ToyCustomizations,
    Workshop,
    WorkshopView,
};
use crate::table::{
    applied,
    key_listing,
    lemma_full_listing,
    listing_view,
    lookup,
    outcome_view,
    view_of,
    views,
    Order,
    Table,
};

verus! {

/// The number of records that a listing holds at most when the question
/// names no limit.
pub const DEFAULT_LIMIT: u32 = 10;

/// One change to a customization record.
#[derive(Debug, PartialEq, Eq)]
pub enum Customization {
    /// One more accessory.
    Accessory(String),
    /// A new appearance, in place of the present one.
    Appearance(String),
    /// One more upgrade.
    Upgrade(String),
    /// One more enhancement.
    Enhancement(String),
}

/// A change as contracts see it.
pub enum ChangeView {
    Accessory(Seq<char>),
    Appearance(Seq<char>),
    Upgrade(Seq<char>),
    Enhancement(Seq<char>),
}

impl View for Customization {
    type V = ChangeView;

    open spec fn view(&self) -> ChangeView {
        match *self {
            Customization::Accessory(text) => ChangeView::Accessory(text@),
            Customization::Appearance(text) => ChangeView::Appearance(text@),
            Customization::Upgrade(text) => ChangeView::Upgrade(text@),
            Customization::Enhancement(text) => ChangeView::Enhancement(text@),
        }
    }
}

/// What a change makes of the record of a toy. Accessories, upgrades and
/// enhancements are appended, the appearance is overwritten; without a record
/// the update fails.
pub open spec fn customized(current: Option<CustomizationView>, change: ChangeView) -> Result<
    CustomizationView,
    ContractError,
> {
    match current {
        Some(record) => Ok(
            match change {
                ChangeView::Accessory(text) => CustomizationView {
                    accessories: record.accessories.push(text),
                    ..record
                },
                ChangeView::Appearance(text) => CustomizationView {
                    appearance: Some(text),
                    ..record
                },
                ChangeView::Upgrade(text) => CustomizationView {
                    upgrades: record.upgrades.push(text),
                    ..record
                },
                ChangeView::Enhancement(text) => CustomizationView {
                    enhancements: record.enhancements.push(text),
                    ..record
                },
            },
        ),
        None => Err(ContractError::NotFound),
    }
}

/// What a repair makes of the repair log of a toy: the marker is appended;
/// without a log the update fails.
pub open spec fn repaired(current: Option<Seq<Seq<char>>>, marker: Seq<char>) -> Result<
    Seq<Seq<char>>,
    ContractError,
> {
    match current {
        Some(log) => Ok(log.push(marker)),
        None => Err(ContractError::NotFound),
    }
}

/// What a change makes of the record of the toy at an address, or
/// `InvalidAddress` if the validator rejected the address.
pub open spec fn customization_outcome(
    workshop: WorkshopView,
    toy: Option<Seq<char>>,
    change: ChangeView,
) -> Result<CustomizationView, ContractError> {
    match toy {
        Some(key) => customized(lookup(workshop.customized_toys, key), change),
        None => Err(ContractError::InvalidAddress),
    }
}

/// The workshop after a change to the record of a toy. A change that fails
/// changes nothing.
pub open spec fn after_customization(
    workshop: WorkshopView,
    toy: Option<Seq<char>>,
    change: ChangeView,
) -> WorkshopView {
    match toy {
        Some(key) => WorkshopView {
            customized_toys: applied(
                workshop.customized_toys,
                key,
                customization_outcome(workshop, toy, change),
            ),
            repair_history: workshop.repair_history,
        },
        None => workshop,
    }
}

/// What a repair makes of the log of the toy at an address, or
/// `InvalidAddress` if the validator rejected the address.
pub open spec fn repair_outcome(
    workshop: WorkshopView,
    toy: Option<Seq<char>>,
    marker: Seq<char>,
) -> Result<Seq<Seq<char>>, ContractError> {
    match toy {
        Some(key) => repaired(lookup(workshop.repair_history, key), marker),
        None => Err(ContractError::InvalidAddress),
    }
}

/// The workshop after a repair. A repair that fails changes nothing.
pub open spec fn after_repair(
    workshop: WorkshopView,
    toy: Option<Seq<char>>,
    marker: Seq<char>,
) -> WorkshopView {
    match toy {
        Some(key) => WorkshopView {
            customized_toys: workshop.customized_toys,
            repair_history: applied(
                workshop.repair_history,
                key,
                repair_outcome(workshop, toy, marker),
            ),
        },
        None => workshop,
    }
}

/// The record of the toy at an address: `InvalidAddress` if the validator
/// rejected the address, `NotFound` if the toy has no record.
pub open spec fn customization_found(workshop: WorkshopView, toy: Option<Seq<char>>) -> Result<
    CustomizationView,
    ContractError,
> {
    match toy {
        Some(key) => match lookup(workshop.customized_toys, key) {
            Some(record) => Ok(record),
            None => Err(ContractError::NotFound),
        },
        None => Err(ContractError::InvalidAddress),
    }
}

/// The repair log of the toy at an address: `InvalidAddress` if the validator
/// rejected the address, `NotFound` if the toy has no log.
pub open spec fn history_found(workshop: WorkshopView, toy: Option<Seq<char>>) -> Result<
    Seq<Seq<char>>,
    ContractError,
> {
    match toy {
        Some(key) => match lookup(workshop.repair_history, key) {
            Some(log) => Ok(log),
            None => Err(ContractError::NotFound),
        },
        None => Err(ContractError::InvalidAddress),
    }
}

/// The enhancements of the toy at an address, or the error that
/// `customization_found` gives.
pub open spec fn enhancements_found(workshop: WorkshopView, toy: Option<Seq<char>>) -> Result<
    Seq<Seq<char>>,
    ContractError,
> {
    match customization_found(workshop, toy) {
        Ok(record) => Ok(record.enhancements),
        Err(e) => Err(e),
    }
}

/// The number of records that a listing with this limit holds at most.
pub open spec fn limit_of(limit: Option<u32>) -> nat {
    match limit {
        Some(n) => n as nat,
        None => DEFAULT_LIMIT as nat,
    }
}

/// The customization records in ascending order of the addresses that they
/// are stored under, each with that address as its `toy`.
pub open spec fn customizations_in_key_order(workshop: WorkshopView) -> Seq<CustomizationView> {
    key_listing::<Principal>(workshop.customized_toys.dom()).map_values(
        |key: Seq<char>| CustomizationView { toy: key, ..workshop.customized_toys[key] },
    )
}

/// The first records of `customizations_in_key_order`, as many as the limit
/// allows.
pub open spec fn customizations_listed(workshop: WorkshopView, limit: Option<u32>) -> Seq<
    CustomizationView,
> {
    let all = customizations_in_key_order(workshop);
    if limit_of(limit) < all.len() {
        all.take(limit_of(limit) as int)
    } else {
        all
    }
}

/// The workshop after a command. `marker` is what a repair writes to the log.
pub open spec fn executed(workshop: WorkshopView, marker: Seq<char>, msg: ExecuteMsg) -> WorkshopView {
    match msg {
        ExecuteMsg::AddAccessory { toy, accessory } => after_customization(
            workshop,
            address_of(toy),
            ChangeView::Accessory(accessory@),
        ),
        ExecuteMsg::ChangeAppearance { toy, appearance } => after_customization(
            workshop,
            address_of(toy),
            ChangeView::Appearance(appearance@),
        ),
        ExecuteMsg::UpgradeToy { toy, upgrade } => after_customization(
            workshop,
            address_of(toy),
            ChangeView::Upgrade(upgrade@),
        ),
        ExecuteMsg::RepairToy { toy } => after_repair(workshop, address_of(toy), marker),
        ExecuteMsg::EnhanceToy { toy, enhancement } => after_customization(
            workshop,
            address_of(toy),
            ChangeView::Enhancement(enhancement@),
        ),
    }
}

/// What a change reports: the command, and what was added or set under the
/// name of its kind.
pub open spec fn change_report(change: ChangeView) -> Attributes {
    match change {
        ChangeView::Accessory(text) => seq![
            (method_key(), "add_accessory"@),
            ("accessory"@, text),
        ],
        ChangeView::Appearance(text) => seq![
            (method_key(), "change_appearance"@),
            ("appearance"@, text),
        ],
        ChangeView::Upgrade(text) => seq![(method_key(), "upgrade_toy"@), ("upgrade"@, text)],
        ChangeView::Enhancement(text) => seq![
            (method_key(), "enhance_toy"@),
            ("enhancement"@, text),
        ],
    }
}

/// What a repair reports: the command.
pub open spec fn repair_report() -> Attributes {
    seq![(method_key(), "repair_toy"@)]
}

/// What a command reports if it succeeds, and the error if it does not.
pub open spec fn execution_report(
    workshop: WorkshopView,
    marker: Seq<char>,
    msg: ExecuteMsg,
) -> Result<Attributes, ContractError> {
    match msg {
        ExecuteMsg::AddAccessory { toy, accessory } => report(
            customization_outcome(workshop, address_of(toy), ChangeView::Accessory(accessory@)),
            change_report(ChangeView::Accessory(accessory@)),
        ),
        ExecuteMsg::ChangeAppearance { toy, appearance } => report(
            customization_outcome(workshop, address_of(toy), ChangeView::Appearance(appearance@)),
            change_report(ChangeView::Appearance(appearance@)),
        ),
        ExecuteMsg::UpgradeToy { toy, upgrade } => report(
            customization_outcome(workshop, address_of(toy), ChangeView::Upgrade(upgrade@)),
            change_report(ChangeView::Upgrade(upgrade@)),
        ),
        ExecuteMsg::RepairToy { toy } => report(
            repair_outcome(workshop, address_of(toy), marker),
            repair_report(),
        ),
        ExecuteMsg::EnhanceToy { toy, enhancement } => report(
            customization_outcome(
                workshop,
                address_of(toy),
                ChangeView::Enhancement(enhancement@),
            ),
            change_report(ChangeView::Enhancement(enhancement@)),
        ),
    }
}

/// The response of a change that has succeeded.
fn change_response(change: &Customization) -> (response: Response<Empty>)
    ensures
        attributes_of(response) == change_report(change@),
        reports_only(Ok(response)),
{
    proof {
        reveal_strlit("accessory");
        reveal_strlit("appearance");
        reveal_strlit("upgrade");
        reveal_strlit("enhancement");
    }
    let response = match change {
        Customization::Accessory(text) => with_attribute(
            method_response("add_accessory"),
            "accessory",
            text.clone(),
        ),
        Customization::Appearance(text) => with_attribute(
            method_response("change_appearance"),
            "appearance",
            text.clone(),
        ),
        Customization::Upgrade(text) => with_attribute(
            method_response("upgrade_toy"),
            "upgrade",
            text.clone(),
        ),
        Customization::Enhancement(text) => with_attribute(
            method_response("enhance_toy"),
            "enhancement",
            text.clone(),
        ),
    };
    assert(attributes_of(response) =~= change_report(change@));
    response
}

/// The answer to a question.
pub open spec fn answered(workshop: WorkshopView, msg: QueryMsg) -> Result<
    AnswerView,
    ContractError,
> {
    match msg {
        QueryMsg::GetToyCustomization { toy } => match customization_found(
            workshop,
            address_of(toy),
        ) {
            Ok(record) => Ok(AnswerView::Customization(record)),
            Err(e) => Err(e),
        },
        QueryMsg::ListCustomizations { limit } => Ok(
            AnswerView::Customizations(customizations_listed(workshop, limit)),
        ),
        QueryMsg::GetRepairHistory { toy } => match history_found(workshop, address_of(toy)) {
            Ok(log) => Ok(AnswerView::RepairHistory(log)),
            Err(e) => Err(e),
        },
        QueryMsg::GetEnhancements { toy } => match enhancements_found(workshop, address_of(toy)) {
            Ok(texts) => Ok(AnswerView::Enhancements(texts)),
            Err(e) => Err(e),
        },
    }
}

/// The update that changes a customization record: given what is stored for
/// the toy, the record to store in its place.
pub fn customize(current: Option<&ToyCustomization>, change: Customization) -> (outcome: Result<
    ToyCustomization,
    ContractError,
>)
    ensures
        outcome_view(outcome) == customized(view_of(current), change@),
{
    match current {
        Some(record) => {
            let mut accessories = clone_texts(&record.accessories);
            let mut appearance = clone_text(&record.appearance);
            let mut upgrades = clone_texts(&record.upgrades);
            let mut enhancements = clone_texts(&record.enhancements);
            match change {
                Customization::Accessory(text) => {
                    let ghost before = accessories@;
                    accessories.push(text);
                    assert(views(accessories@) =~= views(before).push(text@));
                },
                Customization::Appearance(text) => {
                    appearance = Some(text);
                },
                Customization::Upgrade(text) => {
                    let ghost before = upgrades@;
                    upgrades.push(text);
                    assert(views(upgrades@) =~= views(before).push(text@));
                },
                Customization::Enhancement(text) => {
                    let ghost before = enhancements@;
                    enhancements.push(text);
                    assert(views(enhancements@) =~= views(before).push(text@));
                },
            }
            Ok(
                ToyCustomization {
                    toy: record.toy.clone(),
                    accessories,
                    appearance,
                    upgrades,
                    enhancements,
                },
            )
        },
        None => Err(ContractError::NotFound),
    }
}

/// The update that records a repair: given the repair log stored for the
/// toy, the log to store in its place.
pub fn repair(current: Option<&RepairHistoryResponse>, marker: String) -> (outcome: Result<
    RepairHistoryResponse,
    ContractError,
>)
    ensures
        outcome_view(outcome) == repaired(view_of(current), marker@),
{
    match current {
        Some(log) => {
            let mut repairs = clone_texts(&log.repairs);
            let ghost before = repairs@;
            repairs.push(marker);
            assert(views(repairs@) =~= views(before).push(marker@));
            Ok(RepairHistoryResponse { repairs })
        },
        None => Err(ContractError::NotFound),
    }
}

/// A new workshop, with no record and no repair log in it, and the response
/// to the request: a response without attributes.
pub fn instantiate(_msg: InstantiateMsg) -> (made: (Workshop, Response<Empty>))
    ensures
        made.0@ == (WorkshopView { customized_toys: Map::empty(), repair_history: Map::empty() }),
        attributes_of(made.1) == Attributes::empty(),
        reports_only(Ok(made.1)),
{
    (Workshop { customized_toys: Table::new(), repair_history: Table::new() }, new_response())
}

/// Carries out a command. `marker` is what a repair writes to the log. A
/// command that fails leaves the workshop as it was.
pub fn execute(workshop: &mut Workshop, marker: String, msg: ExecuteMsg) -> (r: Result<
    Response<Empty>,
    ContractError,
>)
    ensures
        reported(r) == execution_report(old(workshop)@, marker@, msg),
        reports_only(r),
        final(workshop)@ == executed(old(workshop)@, marker@, msg),
{
    match msg {
        ExecuteMsg::AddAccessory { toy, accessory } => try_add_accessory(workshop, toy, accessory),
        ExecuteMsg::ChangeAppearance { toy, appearance } => try_change_appearance(
            workshop,
            toy,
            appearance,
        ),
        ExecuteMsg::UpgradeToy { toy, upgrade } => try_upgrade_toy(workshop, toy, upgrade),
        ExecuteMsg::RepairToy { toy } => try_repair_toy(workshop, toy, marker),
        ExecuteMsg::EnhanceToy { toy, enhancement } => try_enhance_toy(workshop, toy, enhancement),
    }
}

/// Applies one change to the record of the toy at `toy`. Fails, and changes
/// nothing, with `InvalidAddress` if the validator rejected the address and
/// with `NotFound` if the toy has no record.
pub fn try_customize(workshop: &mut Workshop, toy: Option<Principal>, change: Customization) -> (r:
    Result<Response<Empty>, ContractError>)
    ensures
        reported(r) == report(
            customization_outcome(old(workshop)@, address_of(toy), change@),
            change_report(change@),
        ),
        reports_only(r),
        final(workshop)@ == after_customization(old(workshop)@, address_of(toy), change@),
{
    let key = match toy {
        Some(key) => key,
        None => {
            return Err(ContractError::InvalidAddress);
        },
    };
    let response = change_response(&change);
    let update = |current: Option<&ToyCustomization>| -> (outcome: Result<
        ToyCustomization,
        ContractError,
    >)
        ensures
            outcome_view(outcome) == customized(view_of(current), change@),
        {
            customize(current, change)
        };
    match workshop.customized_toys.update(key, update) {
        Ok(()) => Ok(response),
        Err(e) => Err(e),
    }
}

/// Adds an accessory to the record of a toy.
pub fn try_add_accessory(workshop: &mut Workshop, toy: Option<Principal>, accessory: String) -> (r:
    Result<Response<Empty>, ContractError>)
    ensures
        reported(r) == report(
            customization_outcome(
                old(workshop)@,
                address_of(toy),
                ChangeView::Accessory(accessory@),
            ),
            change_report(ChangeView::Accessory(accessory@)),
        ),
        reports_only(r),
        final(workshop)@ == after_customization(
            old(workshop)@,
            address_of(toy),
            ChangeView::Accessory(accessory@),
        ),
{
    try_customize(workshop, toy, Customization::Accessory(accessory))
}

/// Gives a toy a new appearance, in place of the present one.
pub fn try_change_appearance(
    workshop: &mut Workshop,
    toy: Option<Principal>,
    appearance: String,
) -> (r: Result<Response<Empty>, ContractError>)
    ensures
        reported(r) == report(
            customization_outcome(
                old(workshop)@,
                address_of(toy),
                ChangeView::Appearance(appearance@),
            ),
            change_report(ChangeView::Appearance(appearance@)),
        ),
        reports_only(r),
        final(workshop)@ == after_customization(
            old(workshop)@,
            address_of(toy),
            ChangeView::Appearance(appearance@),
        ),
{
    try_customize(workshop, toy, Customization::Appearance(appearance))
}

/// Adds an upgrade to the record of a toy.
pub fn try_upgrade_toy(workshop: &mut Workshop, toy: Option<Principal>, upgrade: String) -> (r:
    Result<Response<Empty>, ContractError>)
    ensures
        reported(r) == report(
            customization_outcome(old(workshop)@, address_of(toy), ChangeView::Upgrade(upgrade@)),
            change_report(ChangeView::Upgrade(upgrade@)),
        ),
        reports_only(r),
        final(workshop)@ == after_customization(
            old(workshop)@,
            address_of(toy),
            ChangeView::Upgrade(upgrade@),
        ),
{
    try_customize(workshop, toy, Customization::Upgrade(upgrade))
}

/// Appends `marker` to the repair log of a toy. Fails, and changes nothing,
/// with `InvalidAddress` if the validator rejected the address and with
/// `NotFound` if the toy has no repair log.
pub fn try_repair_toy(workshop: &mut Workshop, toy: Option<Principal>, marker: String) -> (r:
    Result<Response<Empty>, ContractError>)
    ensures
        reported(r) == report(
            repair_outcome(old(workshop)@, address_of(toy), marker@),
            repair_report(),
        ),
        reports_only(r),
        final(workshop)@ == after_repair(old(workshop)@, address_of(toy), marker@),
{
    let key = match toy {
        Some(key) => key,
        None => {
            return Err(ContractError::InvalidAddress);
        },
    };
    let update = |current: Option<&RepairHistoryResponse>| -> (outcome: Result<
        RepairHistoryResponse,
        ContractError,
    >)
        ensures
            outcome_view(outcome) == repaired(view_of(current), marker@),
        {
            repair(current, marker)
        };
    match workshop.repair_history.update(key, update) {
        Ok(()) => Ok(method_response("repair_toy")),
        Err(e) => Err(e),
    }
}

/// Adds an enhancement to the record of a toy.
pub fn try_enhance_toy(workshop: &mut Workshop, toy: Option<Principal>, enhancement: String) -> (r:
    Result<Response<Empty>, ContractError>)
    ensures
        reported(r) == report(
            customization_outcome(
                old(workshop)@,
                address_of(toy),
                ChangeView::Enhancement(enhancement@),
            ),
            change_report(ChangeView::Enhancement(enhancement@)),
        ),
        reports_only(r),
        final(workshop)@ == after_customization(
            old(workshop)@,
            address_of(toy),
            ChangeView::Enhancement(enhancement@),
        ),
{
    try_customize(workshop, toy, Customization::Enhancement(enhancement))
}

/// Answers a question about the workshop.
pub fn query(workshop: &Workshop, msg: QueryMsg) -> (r: Result<QueryResponse, ContractError>)
    ensures
        outcome_view(r) == answered(workshop@, msg),
{
    match msg {
        QueryMsg::GetToyCustomization { toy } => {
            match query_get_toy_customization(workshop, toy) {
                Ok(record) => Ok(QueryResponse::Customization(record)),
                Err(e) => Err(e),
            }
        },
        QueryMsg::ListCustomizations { limit } => Ok(
            QueryResponse::Customizations(query_list_customizations(workshop, limit)),
        ),
        QueryMsg::GetRepairHistory { toy } => {
            match query_get_repair_history(workshop, toy) {
                Ok(log) => Ok(QueryResponse::RepairHistory(log)),
                Err(e) => Err(e),
            }
        },
        QueryMsg::GetEnhancements { toy } => {
            match query_get_enhancements(workshop, toy) {
                Ok(texts) => Ok(QueryResponse::Enhancements(texts)),
                Err(e) => Err(e),
            }
        },
    }
}

/// The record of the toy at `toy`.
pub fn query_get_toy_customization(workshop: &Workshop, toy: Option<Principal>) -> (r: Result<
    ToyCustomization,
    ContractError,
>)
    ensures
        outcome_view(r) == customization_found(workshop@, address_of(toy)),
{
    match toy {
        Some(key) => match workshop.customized_toys.get(&key) {
            Some(record) => Ok(record.clone()),
            None => Err(ContractError::NotFound),
        },
        None => Err(ContractError::InvalidAddress),
    }
}

/// The first customization records in ascending order of the addresses that
/// they are stored under, each with that address as its `toy`: at most
/// `limit` of them, or `DEFAULT_LIMIT` if `limit` is `None`. Fewer records
/// than the limit are no error.
pub fn query_list_customizations(workshop: &Workshop, limit: Option<u32>) -> (records:
    ToyCustomizations)
    ensures
        views(records@) == customizations_listed(workshop@, limit),
{
    let limit: usize = match limit {
        Some(n) => n as usize,
        None => DEFAULT_LIMIT as usize,
    };
    let listing = workshop.customized_toys.range(None, None, Order::Ascending);
    let count: usize = if limit < listing.len() {
        limit
    } else {
        listing.len()
    };
    let ghost all = customizations_in_key_order(workshop@);
    proof {
        lemma_full_listing::<Principal, ToyCustomization>(listing@, workshop.customized_toys@);
        assert(all.len() == listing@.len());
        assert forall|j: int| 0 <= j < listing@.len() implies all[j] == (CustomizationView {
            toy: listing@[j].0@,
            ..listing@[j].1@
        }) by {
            let keys = listing@.map_values(|e: (&Principal, &ToyCustomization)| e.0@);
            assert(keys[j] == listing@[j].0@);
            assert(workshop.customized_toys@[keys[j]] == listing@[j].1@);
        }
    }
    let mut records: ToyCustomizations = Vec::new();
    let mut i: usize = 0;
    while i < count
        invariant
            i <= count <= listing.len(),
            all.len() == listing@.len(),
            records@.len() == i,
            forall|j: int|
                0 <= j < listing@.len() ==> all[j] == (CustomizationView {
                    toy: (#[trigger] listing@[j]).0@,
                    ..listing@[j].1@
                }),
            forall|j: int| 0 <= j < i ==> (#[trigger] records@[j])@ == all[j],
        decreases count - i,
    {
        let entry = listing[i];
        let record = ToyCustomization {
            toy: entry.0.clone(),
            accessories: clone_texts(&entry.1.accessories),
            appearance: clone_text(&entry.1.appearance),
            upgrades: clone_texts(&entry.1.upgrades),
            enhancements: clone_texts(&entry.1.enhancements),
        };
        assert(record@ == all[i as int]);
        records.push(record);
        i += 1;
    }
    assert(views(records@) =~= all.take(count as int));
    records
}

/// The repair log of the toy at `toy`.
pub fn query_get_repair_history(workshop: &Workshop, toy: Option<Principal>) -> (r: Result<
    RepairHistoryResponse,
    ContractError,
>)
    ensures
        outcome_view(r) == history_found(workshop@, address_of(toy)),
{
    match toy {
        Some(key) => match workshop.repair_history.get(&key) {
            Some(log) => Ok(log.clone()),
            None => Err(ContractError::NotFound),
        },
        None => Err(ContractError::InvalidAddress),
    }
}

/// The enhancements of the toy at `toy`, oldest first.
pub fn query_get_enhancements(workshop: &Workshop, toy: Option<Principal>) -> (r: Result<
    EnhancementResponse,
    ContractError,
>)
    ensures
        listing_view(r) == enhancements_found(workshop@, address_of(toy)),
{
    match toy {
        Some(key) => match workshop.customized_toys.get(&key) {
            Some(record) => Ok(clone_texts(&record.enhancements)),
            None => Err(ContractError::NotFound),
        },
        None => Err(ContractError::InvalidAddress),
    }
}

} // verus!
