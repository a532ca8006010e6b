//! The records of the play-scenario store.

use vstd::prelude::*;
use crate::table::Table;

verus! {

/// A named play scenario and the toys that take part in it.
#[derive(Debug, PartialEq, Eq)]
pub struct PlayScenario {
    pub name: String,
    pub toys: Vec<u64>,
}

/// A play scenario as contracts see it.
#[verifier::ext_equal]
pub struct ScenarioView {
    pub name: Seq<char>,
    pub toys: Seq<u64>,
}

impl View for PlayScenario {
    type V = ScenarioView;

    open spec fn view(&self) -> ScenarioView {
        ScenarioView { name: self.name@, toys: self.toys@ }
    }
}

impl Clone for PlayScenario {
    fn clone(&self) -> (copy: Self)
        ensures
            copy@ == self@,
    {
        let copy = PlayScenario { name: self.name.clone(), toys: self.toys.clone() };
        assert(copy.toys@ =~= self.toys@);
        copy
    }
}

/// A listing of play scenarios.
pub type PlayScenarios = Vec<PlayScenario>;

/// The store: play scenarios under their names.
pub type ScenarioStore = Table<String, PlayScenario>;

} // verus!
