//! The operations of the play-scenario store.
//!
//! Each operation is stated twice: as a spec function on the store's view, a
//! map from scenario names to scenarios, and as an executable function whose
//! contract refers to it.

use vstd::prelude::*;
use cosmwasm_std::{Empty, Response};
use crate::andys_room::msg::{AnswerView, ExecuteMsg, InstantiateMsg, QueryMsg, QueryResponse};
use crate::andys_room::state::{PlayScenario, PlayScenarios, ScenarioStore, ScenarioView};
use crate::error::ContractError;
use crate::response::{
    attributes_of,
    method_key,
    method_response,
    new_response,
    report,
    reported,
    reports_only,
    with_attribute,
    Attributes,
};
use crate::table::{
    applied,
    lemma_full_listing,
    lookup,
    outcome_view,
    records_in_key_order,
    view_of,
    views,
    Order,
};

verus! {

/// The view of the store: scenarios under their names.
pub type Scenarios = Map<Seq<char>, ScenarioView>;

/// The test that keeps every toy but `toy_id`.
pub open spec fn is_other_toy(toy_id: u64) -> spec_fn(u64) -> bool {
    |id: u64| id != toy_id
}

/// A scenario that has just been created: it holds no toys.
pub open spec fn fresh_scenario(name: Seq<char>) -> ScenarioView {
    ScenarioView { name, toys: Seq::empty() }
}

/// What adding a toy makes of the scenario under a name. The toy is appended
/// unless it takes part already; without a scenario the update fails.
pub open spec fn toy_added(current: Option<ScenarioView>, toy_id: u64) -> Result<
    ScenarioView,
    ContractError,
> {
    match current {
        Some(scenario) => Ok(
            ScenarioView {
                name: scenario.name,
                toys: if scenario.toys.contains(toy_id) {
                    scenario.toys
                } else {
                    scenario.toys.push(toy_id)
                },
            },
        ),
        None => Err(ContractError::NotFound),
    }
}

/// What removing a toy makes of the scenario under a name. Every occurrence
/// of the toy goes; without a scenario the update fails.
pub open spec fn toy_removed(current: Option<ScenarioView>, toy_id: u64) -> Result<
    ScenarioView,
    ContractError,
> {
    match current {
        Some(scenario) => Ok(
            ScenarioView { name: scenario.name, toys: scenario.toys.filter(is_other_toy(toy_id)) },
        ),
        None => Err(ContractError::NotFound),
    }
}

/// The store after a toy was added to the scenario under `name`. Nothing
/// changes if there is no such scenario.
pub open spec fn toy_added_to(scenarios: Scenarios, name: Seq<char>, toy_id: u64) -> Scenarios {
    applied(scenarios, name, toy_added(lookup(scenarios, name), toy_id))
}

/// The store after a toy was removed from the scenario under `name`. Nothing
/// changes if there is no such scenario.
pub open spec fn toy_removed_from(scenarios: Scenarios, name: Seq<char>, toy_id: u64) -> Scenarios {
    applied(scenarios, name, toy_removed(lookup(scenarios, name), toy_id))
}

/// The store after a scenario was created under `name`.
pub open spec fn scenario_created(scenarios: Scenarios, name: Seq<char>) -> Scenarios {
    scenarios.insert(name, fresh_scenario(name))
}

/// The store after the scenario under `name` was deleted.
pub open spec fn scenario_deleted(scenarios: Scenarios, name: Seq<char>) -> Scenarios {
    scenarios.remove(name)
}

/// The scenario under `name`, or `NotFound`.
pub open spec fn scenario_found(scenarios: Scenarios, name: Seq<char>) -> Result<
    ScenarioView,
    ContractError,
> {
    match lookup(scenarios, name) {
        Some(scenario) => Ok(scenario),
        None => Err(ContractError::NotFound),
    }
}

/// The store after a command.
pub open spec fn executed(scenarios: Scenarios, msg: ExecuteMsg) -> Scenarios {
    match msg {
        ExecuteMsg::AddToyToPlayScenario { scenario_name, toy_id } => toy_added_to(
            scenarios,
            scenario_name@,
            toy_id,
        ),
        ExecuteMsg::RemoveToyFromScenario { scenario_name, toy_id } => toy_removed_from(
            scenarios,
            scenario_name@,
            toy_id,
        ),
        ExecuteMsg::CreatePlayScenario { name } => scenario_created(scenarios, name@),
        ExecuteMsg::DeletePlayScenario { name } => scenario_deleted(scenarios, name@),
    }
}

/// What a command on a scenario reports: the command and the scenario's name.
pub open spec fn scenario_report(method: Seq<char>, name: Seq<char>) -> Attributes {
    seq![(method_key(), method), ("scenario"@, name)]
}

/// What a command reports if it succeeds, and the error if it does not.
pub open spec fn execution_report(scenarios: Scenarios, msg: ExecuteMsg) -> Result<
    Attributes,
    ContractError,
> {
    match msg {
        ExecuteMsg::AddToyToPlayScenario { scenario_name, toy_id } => report(
            toy_added(lookup(scenarios, scenario_name@), toy_id),
            scenario_report("add_toy_to_play_scenario"@, scenario_name@),
        ),
        ExecuteMsg::RemoveToyFromScenario { scenario_name, toy_id } => report(
            toy_removed(lookup(scenarios, scenario_name@), toy_id),
            scenario_report("remove_toy_from_scenario"@, scenario_name@),
        ),
        ExecuteMsg::CreatePlayScenario { name } => Ok(
            scenario_report("create_play_scenario"@, name@),
        ),
        ExecuteMsg::DeletePlayScenario { name } => Ok(
            scenario_report("delete_play_scenario"@, name@),
        ),
    }
}

/// The response of a command on a scenario that has succeeded.
fn scenario_response(method: &str, name: String) -> (response: Response<Empty>)
    ensures
        attributes_of(response) == scenario_report(method@, name@),
        reports_only(Ok(response)),
{
    proof {
        reveal_strlit("scenario");
    }
    let response = with_attribute(method_response(method), "scenario", name);
    assert(attributes_of(response) =~= scenario_report(method@, name@));
    response
}

/// The answer to a question.
pub open spec fn answered(scenarios: Scenarios, msg: QueryMsg) -> Result<
    AnswerView,
    ContractError,
> {
    match msg {
        QueryMsg::GetPlayScenario { name } => match scenario_found(scenarios, name@) {
            Ok(scenario) => Ok(AnswerView::Scenario(scenario)),
            Err(e) => Err(e),
        },
        QueryMsg::ListPlayScenarios {  } => Ok(
            AnswerView::Scenarios(records_in_key_order::<String, ScenarioView>(scenarios)),
        ),
    }
}

/// Whether `toy_id` occurs in `toys`.
fn takes_part(toys: &Vec<u64>, toy_id: u64) -> (found: bool)
    ensures
        found == toys@.contains(toy_id),
{
    let mut i: usize = 0;
    while i < toys.len()
        invariant
            i <= toys.len(),
            forall|j: int| 0 <= j < i ==> toys@[j] != toy_id,
        decreases toys.len() - i,
    {
        if toys[i] == toy_id {
            return true;
        }
        i += 1;
    }
    false
}

/// The toys of `toys` other than `toy_id`, in their order.
fn others(toys: &Vec<u64>, toy_id: u64) -> (kept: Vec<u64>)
    ensures
        kept@ == toys@.filter(is_other_toy(toy_id)),
{
    let mut kept: Vec<u64> = Vec::new();
    let mut i: usize = 0;
    proof {
        reveal(Seq::filter);
        assert(toys@.take(0) =~= Seq::<u64>::empty());
    }
    while i < toys.len()
        invariant
            i <= toys.len(),
            kept@ == toys@.take(i as int).filter(is_other_toy(toy_id)),
        decreases toys.len() - i,
    {
        proof {
            assert(toys@.take(i + 1) =~= toys@.take(i as int).push(toys@[i as int]));
            toys@.take(i as int).lemma_filter_push(toys@[i as int], is_other_toy(toy_id));
        }
        if toys[i] != toy_id {
            kept.push(toys[i]);
        }
        i += 1;
    }
    proof {
        assert(toys@.take(toys.len() as int) =~= toys@);
    }
    kept
}

/// The update that adds a toy to a scenario: given what is stored under the
/// scenario's name, the record to store in its place.
pub fn add_toy(current: Option<&PlayScenario>, toy_id: u64) -> (outcome: Result<
    PlayScenario,
    ContractError,
>)
    ensures
        outcome_view(outcome) == toy_added(view_of(current), toy_id),
{
    match current {
        Some(scenario) => {
            let mut toys = scenario.toys.clone();
            assert(toys@ =~= scenario.toys@);
            if !takes_part(&toys, toy_id) {
                toys.push(toy_id);
            }
            Ok(PlayScenario { name: scenario.name.clone(), toys })
        },
        None => Err(ContractError::NotFound),
    }
}

/// The update that removes a toy from a scenario: given what is stored under
/// the scenario's name, the record to store in its place.
pub fn remove_toy(current: Option<&PlayScenario>, toy_id: u64) -> (outcome: Result<
    PlayScenario,
    ContractError,
>)
    ensures
        outcome_view(outcome) == toy_removed(view_of(current), toy_id),
{
    match current {
        Some(scenario) => Ok(
            PlayScenario { name: scenario.name.clone(), toys: others(&scenario.toys, toy_id) },
        ),
        None => Err(ContractError::NotFound),
    }
}

/// A new store, with no scenario in it, and the response to the request: a
/// response without attributes.
pub fn instantiate(_msg: InstantiateMsg) -> (made: (ScenarioStore, Response<Empty>))
    ensures
        made.0@ == Scenarios::empty(),
        attributes_of(made.1) == Attributes::empty(),
        reports_only(Ok(made.1)),
{
    (ScenarioStore::new(), new_response())
}

/// Carries out a command. A command that fails leaves the store as it was.
pub fn execute(store: &mut ScenarioStore, msg: ExecuteMsg) -> (r: Result<
    Response<Empty>,
    ContractError,
>)
    ensures
        reported(r) == execution_report(old(store)@, msg),
        reports_only(r),
        final(store)@ == executed(old(store)@, msg),
{
    match msg {
        ExecuteMsg::AddToyToPlayScenario { scenario_name, toy_id } => {
            execute_add_toy_to_play_scenario(store, scenario_name, toy_id)
        },
        ExecuteMsg::RemoveToyFromScenario { scenario_name, toy_id } => {
            execute_remove_toy_from_scenario(store, scenario_name, toy_id)
        },
        ExecuteMsg::CreatePlayScenario { name } => execute_create_play_scenario(store, name),
        ExecuteMsg::DeletePlayScenario { name } => execute_delete_play_scenario(store, name),
    }
}

/// Adds a toy to the scenario under `scenario_name`, unless it takes part
/// already. Fails with `NotFound` if there is no such scenario.
pub fn execute_add_toy_to_play_scenario(
    store: &mut ScenarioStore,
    scenario_name: String,
    toy_id: u64,
) -> (r: Result<Response<Empty>, ContractError>)
    ensures
        reported(r) == report(
            toy_added(lookup(old(store)@, scenario_name@), toy_id),
            scenario_report("add_toy_to_play_scenario"@, scenario_name@),
        ),
        reports_only(r),
        final(store)@ == toy_added_to(old(store)@, scenario_name@, toy_id),
{
    let name = scenario_name.clone();
    let change = |current: Option<&PlayScenario>| -> (outcome: Result<PlayScenario, ContractError>)
        ensures
            outcome_view(outcome) == toy_added(view_of(current), toy_id),
        {
            add_toy(current, toy_id)
        };
    match store.update(scenario_name, change) {
        Ok(()) => Ok(scenario_response("add_toy_to_play_scenario", name)),
        Err(e) => Err(e),
    }
}

/// Removes every occurrence of a toy from the scenario under
/// `scenario_name`. Fails with `NotFound` if there is no such scenario.
pub fn execute_remove_toy_from_scenario(
    store: &mut ScenarioStore,
    scenario_name: String,
    toy_id: u64,
) -> (r: Result<Response<Empty>, ContractError>)
    ensures
        reported(r) == report(
            toy_removed(lookup(old(store)@, scenario_name@), toy_id),
            scenario_report("remove_toy_from_scenario"@, scenario_name@),
        ),
        reports_only(r),
        final(store)@ == toy_removed_from(old(store)@, scenario_name@, toy_id),
{
    let name = scenario_name.clone();
    let change = |current: Option<&PlayScenario>| -> (outcome: Result<PlayScenario, ContractError>)
        ensures
            outcome_view(outcome) == toy_removed(view_of(current), toy_id),
        {
            remove_toy(current, toy_id)
        };
    match store.update(scenario_name, change) {
        Ok(()) => Ok(scenario_response("remove_toy_from_scenario", name)),
        Err(e) => Err(e),
    }
}

/// Creates an empty scenario under `name`, in place of any scenario that was
/// there before.
pub fn execute_create_play_scenario(store: &mut ScenarioStore, name: String) -> (r: Result<
    Response<Empty>,
    ContractError,
>)
    ensures
        reported(r) == Ok::<Attributes, ContractError>(
            scenario_report("create_play_scenario"@, name@),
        ),
        reports_only(r),
        final(store)@ == scenario_created(old(store)@, name@),
{
    let scenario = PlayScenario { name: name.clone(), toys: Vec::new() };
    assert(scenario@ =~= fresh_scenario(name@));
    store.put(name.clone(), scenario);
    Ok(scenario_response("create_play_scenario", name))
}

/// Deletes the scenario under `name`. Succeeds whether or not there is one.
pub fn execute_delete_play_scenario(store: &mut ScenarioStore, name: String) -> (r: Result<
    Response<Empty>,
    ContractError,
>)
    ensures
        reported(r) == Ok::<Attributes, ContractError>(
            scenario_report("delete_play_scenario"@, name@),
        ),
        reports_only(r),
        final(store)@ == scenario_deleted(old(store)@, name@),
{
    store.delete(&name);
    Ok(scenario_response("delete_play_scenario", name))
}

/// Answers a question about the store.
pub fn query(store: &ScenarioStore, msg: QueryMsg) -> (r: Result<QueryResponse, ContractError>)
    ensures
        outcome_view(r) == answered(store@, msg),
{
    match msg {
        QueryMsg::GetPlayScenario { name } => {
            match query_get_play_scenario(store, name) {
                Ok(scenario) => Ok(QueryResponse::Scenario(scenario)),
                Err(e) => Err(e),
            }
        },
        QueryMsg::ListPlayScenarios {  } => Ok(
            QueryResponse::Scenarios(query_list_play_scenarios(store)),
        ),
    }
}

/// The scenario under `name`. Fails with `NotFound` if there is none.
pub fn query_get_play_scenario(store: &ScenarioStore, name: String) -> (r: Result<
    PlayScenario,
    ContractError,
>)
    ensures
        outcome_view(r) == scenario_found(store@, name@),
{
    match store.get(&name) {
        Some(scenario) => Ok(scenario.clone()),
        None => Err(ContractError::NotFound),
    }
}

/// All scenarios, in ascending order of the names that they are stored under.
pub fn query_list_play_scenarios(store: &ScenarioStore) -> (scenarios: PlayScenarios)
    ensures
        views(scenarios@) == records_in_key_order::<String, ScenarioView>(store@),
{
    let listing = store.range(None, None, Order::Ascending);
    let mut scenarios: PlayScenarios = Vec::new();
    let mut i: usize = 0;
    while i < listing.len()
        invariant
            i <= listing.len(),
            scenarios@.len() == i,
            forall|j: int| 0 <= j < i ==> (#[trigger] scenarios@[j])@ == listing@[j].1@,
        decreases listing.len() - i,
    {
        scenarios.push(listing[i].1.clone());
        i += 1;
    }
    proof {
        lemma_full_listing::<String, PlayScenario>(listing@, store@);
        assert(views(scenarios@) =~= listing@.map_values(
            |e: (&String, &PlayScenario)| e.1@,
        ));
    }
    scenarios
}

} // verus!
