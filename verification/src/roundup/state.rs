//! The records of the ownership registry.

use vstd::prelude::*;
use crate::principal::Principal;
use crate::table::Table;

verus! {

/// A toy in the registry.
#[derive(Debug, PartialEq, Eq)]
pub struct Toy {
    pub id: u64,
    pub name: String,
    pub owner: Principal,
}

/// A toy as contracts see it.
#[verifier::ext_equal]
pub struct ToyView {
    pub id: u64,
    pub name: Seq<char>,
    pub owner: Seq<char>,
}

impl View for Toy {
    type V = ToyView;

    open spec fn view(&self) -> ToyView {
        ToyView { id: self.id, name: self.name@, owner: self.owner@ }
    }
}

impl Clone for Toy {
    fn clone(&self) -> (copy: Self)
        ensures
            copy@ == self@,
    {
        Toy { id: self.id, name: self.name.clone(), owner: self.owner.clone() }
    }
}

/// A listing of toys.
pub type Toys = Vec<Toy>;

/// The counter of the registry: the number that the next toy will get.
#[derive(Clone, Copy, Debug, PartialEq, Eq, Structural)]
pub struct Config {
    pub next_id: u64,
}

/// The registry: its counter, and the toys under their numbers.
pub struct Registry {
    pub config: Config,
    pub toys: Table<u64, Toy>,
}

/// The registry as contracts see it.
#[verifier::ext_equal]
pub struct RegistryView {
    pub next_id: u64,
    pub toys: Map<u64, ToyView>,
}

impl View for Registry {
    type V = RegistryView;

    open spec fn view(&self) -> RegistryView {
        RegistryView { next_id: self.config.next_id, toys: self.toys@ }
    }
}

impl RegistryView {
    /// Whether every toy is stored under its own number and was numbered
    /// before the counter reached its present value. Minting and transferring
    /// keep a registry consistent.
    pub open spec fn consistent(self) -> bool {
        forall|id: u64| #[trigger]
            self.toys.contains_key(id) ==> id < self.next_id && self.toys[id].id == id
    }
}

} // verus!
