//! The commands and questions of the play-scenario store.

use vstd::prelude::*;
use crate::andys_room::state::{PlayScenario, PlayScenarios, ScenarioView};
use crate::table::views;

verus! {

/// Asks for a new, empty store.
#[derive(Debug, PartialEq, Eq)]
pub struct InstantiateMsg {}

/// A command that changes the store.
#[derive(Debug, PartialEq, Eq)]
pub enum ExecuteMsg {
    AddToyToPlayScenario { scenario_name: String, toy_id: u64 },
    RemoveToyFromScenario { scenario_name: String, toy_id: u64 },
    CreatePlayScenario { name: String },
    DeletePlayScenario { name: String },
}

/// A question about the store.
#[derive(Debug, PartialEq, Eq)]
pub enum QueryMsg {
    GetPlayScenario { name: String },
    ListPlayScenarios {},
}

/// The answer to a question.
#[derive(Debug, PartialEq, Eq)]
pub enum QueryResponse {
    Scenario(PlayScenario),
    Scenarios(PlayScenarios),
}

/// An answer as contracts see it.
pub enum AnswerView {
    Scenario(ScenarioView),
    Scenarios(Seq<ScenarioView>),
}

impl View for QueryResponse {
    type V = AnswerView;

    open spec fn view(&self) -> AnswerView {
        match *self {
            QueryResponse::Scenario(scenario) => AnswerView::Scenario(scenario@),
            QueryResponse::Scenarios(scenarios) => AnswerView::Scenarios(views(scenarios@)),
        }
    }
}

} // verus!
