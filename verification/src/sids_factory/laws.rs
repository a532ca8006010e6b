//! What holds of the customization workshop whatever it holds.

use vstd::prelude::*;
use crate::error::ContractError;
use crate::sids_factory::contract::{
    after_customization,
    after_repair,
    customization_found,
    customization_outcome,
    customizations_in_key_order,
    customizations_listed,
    customized,
    history_found,
    limit_of,
    repair_outcome,
    repaired,
    ChangeView,
};
use crate::sids_factory::state::{CustomizationView, WorkshopView};
use crate::table::lookup;

verus! {

/// A change keeps everything that a record held: what the lists held stays
/// at its place, at most one list grows, by one text at its end, and only a
/// new appearance replaces the present one.
pub proof fn lemma_customization_only_adds(record: CustomizationView, change: ChangeView)
    ensures
        customized(Some(record), change) matches Ok(next) && {
            &&& next.toy == record.toy
            &&& record.accessories.is_prefix_of(next.accessories)
            &&& record.upgrades.is_prefix_of(next.upgrades)
            &&& record.enhancements.is_prefix_of(next.enhancements)
            &&& next.accessories.len() + next.upgrades.len() + next.enhancements.len()
                <= record.accessories.len() + record.upgrades.len() + record.enhancements.len() + 1
            &&& !(change is Appearance) ==> next.appearance == record.appearance
        },
{
    let next = customized(Some(record), change)->Ok_0;
    assert(next.accessories.subrange(0, record.accessories.len() as int) =~= record.accessories);
    assert(next.upgrades.subrange(0, record.upgrades.len() as int) =~= record.upgrades);
    assert(next.enhancements.subrange(0, record.enhancements.len() as int)
        =~= record.enhancements);
}

/// Of two changes of appearance the later one stays.
pub proof fn lemma_last_appearance_stays(
    record: CustomizationView,
    first: Seq<char>,
    second: Seq<char>,
)
    ensures
        customized(Some(record), ChangeView::Appearance(first)) matches Ok(once) && customized(
            Some(once),
            ChangeView::Appearance(second),
        ) == customized(Some(record), ChangeView::Appearance(second)),
        customized(Some(record), ChangeView::Appearance(second)) matches Ok(next)
            && next.appearance == Some(second),
{
}

/// An accessory may be added twice: the list then holds it twice.
pub proof fn lemma_accessories_may_repeat(record: CustomizationView, accessory: Seq<char>)
    ensures
        customized(Some(record), ChangeView::Accessory(accessory)) matches Ok(once) && customized(
            Some(once),
            ChangeView::Accessory(accessory),
        ) matches Ok(twice) && twice.accessories == record.accessories.push(accessory).push(
            accessory,
        ),
{
}

/// A change to a toy without a record fails with `NotFound` and changes
/// nothing: no record is made for it.
pub proof fn lemma_no_record_no_change(workshop: WorkshopView, toy: Seq<char>, change: ChangeView)
    requires
        !workshop.customized_toys.contains_key(toy),
    ensures
        customization_outcome(workshop, Some(toy), change) == Err::<
            CustomizationView,
            ContractError,
        >(ContractError::NotFound),
        after_customization(workshop, Some(toy), change) == workshop,
{
}

/// A repair appends its marker to the repair log and keeps what the log held.
pub proof fn lemma_repair_appends(log: Seq<Seq<char>>, marker: Seq<char>)
    ensures
        repaired(Some(log), marker) matches Ok(next) && {
            &&& next.len() == log.len() + 1
            &&& next.last() == marker
            &&& log.is_prefix_of(next)
        },
{
    assert(log.push(marker).subrange(0, log.len() as int) =~= log);
}

/// A toy without a repair log has no repair history, and a repair of it
/// fails with `NotFound` and changes nothing.
pub proof fn lemma_no_log_no_history(workshop: WorkshopView, toy: Seq<char>, marker: Seq<char>)
    requires
        !workshop.repair_history.contains_key(toy),
    ensures
        history_found(workshop, Some(toy)) == Err::<Seq<Seq<char>>, ContractError>(
            ContractError::NotFound,
        ),
        repair_outcome(workshop, Some(toy), marker) == Err::<Seq<Seq<char>>, ContractError>(
            ContractError::NotFound,
        ),
        after_repair(workshop, Some(toy), marker) == workshop,
{
}

/// Nothing but the record or the log under the toy's address changes:
/// a change leaves the repair logs and the records of other toys as they
/// were, and a repair leaves the records and the logs of other toys.
pub proof fn lemma_other_toys_untouched(
    workshop: WorkshopView,
    toy: Option<Seq<char>>,
    change: ChangeView,
    marker: Seq<char>,
    other: Seq<char>,
)
    requires
        toy != Some(other),
    ensures
        after_customization(workshop, toy, change).repair_history == workshop.repair_history,
        lookup(after_customization(workshop, toy, change).customized_toys, other) == lookup(
            workshop.customized_toys,
            other,
        ),
        after_repair(workshop, toy, marker).customized_toys == workshop.customized_toys,
        lookup(after_repair(workshop, toy, marker).repair_history, other) == lookup(
            workshop.repair_history,
            other,
        ),
{
}

/// An address that the validator rejected makes every command and question
/// fail with `InvalidAddress`, and changes nothing.
pub proof fn lemma_rejected_address(workshop: WorkshopView, change: ChangeView, marker: Seq<char>)
    ensures
        customization_outcome(workshop, None, change) == Err::<CustomizationView, ContractError>(
            ContractError::InvalidAddress,
        ),
        after_customization(workshop, None, change) == workshop,
        repair_outcome(workshop, None, marker) == Err::<Seq<Seq<char>>, ContractError>(
            ContractError::InvalidAddress,
        ),
        after_repair(workshop, None, marker) == workshop,
        customization_found(workshop, None) == Err::<CustomizationView, ContractError>(
            ContractError::InvalidAddress,
        ),
        history_found(workshop, None) == Err::<Seq<Seq<char>>, ContractError>(
            ContractError::InvalidAddress,
        ),
{
}

/// A listing holds at most as many records as its limit allows, and it is
/// the beginning of the listing of all records.
pub proof fn lemma_listing_is_bounded(workshop: WorkshopView, limit: Option<u32>)
    ensures
        customizations_listed(workshop, limit).len() <= limit_of(limit),
        customizations_listed(workshop, limit).len() <= customizations_in_key_order(
            workshop,
        ).len(),
        customizations_listed(workshop, limit).is_prefix_of(customizations_in_key_order(workshop)),
        limit_of(limit) >= customizations_in_key_order(workshop).len() ==> customizations_listed(
            workshop,
            limit,
        ) == customizations_in_key_order(workshop),
{
    let all = customizations_in_key_order(workshop);
    let listed = customizations_listed(workshop, limit);
    assert(all.subrange(0, listed.len() as int) =~= listed);
}

} // verus!
