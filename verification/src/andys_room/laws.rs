//! What holds of the play-scenario store whatever it holds.

use vstd::prelude::*;
use crate::andys_room::contract::{
    fresh_scenario,
    is_other_toy,
    scenario_created,
    scenario_deleted,
    scenario_found,
    toy_added,
    toy_added_to,
    toy_removed,
    toy_removed_from,
    Scenarios,
};
use crate::andys_room::state::ScenarioView;
use crate::error::ContractError;
use crate::table::lookup;

verus! {

/// Deleting a scenario that does not exist changes nothing.
pub proof fn lemma_delete_absent(scenarios: Scenarios, name: Seq<char>)
    requires
        !scenarios.contains_key(name),
    ensures
        scenario_deleted(scenarios, name) == scenarios,
{
    assert(scenario_deleted(scenarios, name) =~= scenarios);
}

/// Deleting a scenario twice is deleting it once.
pub proof fn lemma_delete_twice(scenarios: Scenarios, name: Seq<char>)
    ensures
        scenario_deleted(scenario_deleted(scenarios, name), name) == scenario_deleted(
            scenarios,
            name,
        ),
{
    assert(scenario_deleted(scenario_deleted(scenarios, name), name) =~= scenario_deleted(
        scenarios,
        name,
    ));
}

/// After a toy was added to a scenario, adding it again changes nothing.
pub proof fn lemma_add_toy_twice(scenarios: Scenarios, name: Seq<char>, toy_id: u64)
    ensures
        toy_added_to(toy_added_to(scenarios, name, toy_id), name, toy_id) == toy_added_to(
            scenarios,
            name,
            toy_id,
        ),
{
    let once = toy_added_to(scenarios, name, toy_id);
    if scenarios.contains_key(name) {
        let toys = scenarios[name].toys;
        if !toys.contains(toy_id) {
            assert(toys.push(toy_id)[toys.len() as int] == toy_id);
        }
        assert(once[name].toys.contains(toy_id));
        assert(toy_added_to(once, name, toy_id) =~= once);
    }
}

/// After a toy was added to a scenario, the toy takes part in it, and every
/// toy that took part before still does, at its old place.
pub proof fn lemma_add_toy_extends(scenario: ScenarioView, toy_id: u64)
    ensures
        toy_added(Some(scenario), toy_id) matches Ok(next) && {
            &&& next.name == scenario.name
            &&& next.toys.contains(toy_id)
            &&& scenario.toys.is_prefix_of(next.toys)
            &&& next.toys.len() <= scenario.toys.len() + 1
        },
{
    let toys = scenario.toys;
    if !toys.contains(toy_id) {
        assert(toys.push(toy_id)[toys.len() as int] == toy_id);
        assert(toys.push(toy_id).subrange(0, toys.len() as int) =~= toys);
    } else {
        assert(toys.subrange(0, toys.len() as int) =~= toys);
    }
}

/// Adding a toy to a scenario in which no toy occurs twice gives a scenario
/// in which no toy occurs twice.
pub proof fn lemma_add_toy_keeps_toys_distinct(scenario: ScenarioView, toy_id: u64)
    requires
        scenario.toys.no_duplicates(),
    ensures
        toy_added(Some(scenario), toy_id) matches Ok(next) && next.toys.no_duplicates(),
{
}

/// After a toy was removed from a scenario it takes part no more, whatever
/// the number of times it occurred, and the other toys keep their order. A
/// toy that did not take part leaves the scenario as it was.
pub proof fn lemma_remove_toy_removes_all(scenario: ScenarioView, toy_id: u64)
    ensures
        toy_removed(Some(scenario), toy_id) matches Ok(next) && {
            &&& next.name == scenario.name
            &&& !next.toys.contains(toy_id)
            &&& forall|other: u64|
                other != toy_id ==> (next.toys.contains(other) <==> scenario.toys.contains(other))
            &&& !scenario.toys.contains(toy_id) ==> next.toys == scenario.toys
        },
{
    let toys = scenario.toys;
    let keep = is_other_toy(toy_id);
    let kept = toys.filter(keep);
    assert forall|other: u64| other != toy_id implies (kept.contains(other) <==> toys.contains(
        other,
    )) by {
        if toys.contains(other) {
            let i = choose|i: int| 0 <= i < toys.len() && toys[i] == other;
            toys.lemma_filter_contains(keep, i);
        }
        if kept.contains(other) {
            toys.lemma_filter_contains_rev(keep, other);
        }
    }
    if !toys.contains(toy_id) {
        lemma_filter_keeps_all(toys, toy_id);
    }
}

proof fn lemma_filter_keeps_all(toys: Seq<u64>, toy_id: u64)
    requires
        !toys.contains(toy_id),
    ensures
        toys.filter(is_other_toy(toy_id)) == toys,
    decreases toys.len(),
{
    reveal(Seq::filter);
    if toys.len() > 0 {
        let front = toys.drop_last();
        assert forall|i: int| 0 <= i < front.len() implies front[i] != toy_id by {
            assert(toys[i] == front[i]);
        }
        lemma_filter_keeps_all(front, toy_id);
        assert(toys.last() == toys[toys.len() - 1]);
        assert(toys =~= front.push(toys.last()));
    }
}

/// A scenario that has just been created is found under its name, with its
/// name and without toys.
pub proof fn lemma_create_then_get(scenarios: Scenarios, name: Seq<char>)
    ensures
        scenario_found(scenario_created(scenarios, name), name) == Ok::<
            ScenarioView,
            ContractError,
        >(fresh_scenario(name)),
        fresh_scenario(name).name == name,
        fresh_scenario(name).toys.len() == 0,
{
}

/// A command on one scenario leaves every other scenario as it was.
pub proof fn lemma_other_scenarios_untouched(
    scenarios: Scenarios,
    name: Seq<char>,
    toy_id: u64,
    other: Seq<char>,
)
    requires
        other != name,
    ensures
        lookup(toy_added_to(scenarios, name, toy_id), other) == lookup(scenarios, other),
        lookup(toy_removed_from(scenarios, name, toy_id), other) == lookup(scenarios, other),
        lookup(scenario_created(scenarios, name), other) == lookup(scenarios, other),
        lookup(scenario_deleted(scenarios, name), other) == lookup(scenarios, other),
{
}

} // verus!
