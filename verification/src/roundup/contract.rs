//! The operations of the ownership registry.
//!
//! Each operation is stated twice: as a spec function on the registry's view
//! and as an executable function whose contract refers to it.

use vstd::prelude::*;
use cosmwasm_std::{Empty, Response};
use crate::error::ContractError;
use crate::principal::{address_of, Principal};
use crate::response::{
    attributes_of,
    decimal,
    decimal_text,
    method_key,
    method_response,
    new_response,
    report,
    reported,
    reports_only,
    with_attribute,
    Attributes,
};
use crate::roundup::msg::{AnswerView, ExecuteMsg, InstantiateMsg, QueryMsg, QueryResponse};
use crate::roundup::state::{Config, Registry, RegistryView, Toy, ToyView, Toys};
use crate::table::{
    applied,
    lemma_full_listing,
    listing_view,
    lookup,
    outcome_view,
    records_in_key_order,
    verdict,
    view_of,
    views,
    Order,
    Table,
};

verus! {

/// The number that the first toy of a new registry gets.
pub const FIRST_ID: u64 = 1;

/// The decision of a mint when the counter stands at `id`: the next value of
/// the counter and the toy to store under `id`, or `InvalidAddress` if the
/// validator rejected the owner's address.
pub open spec fn minted(id: u64, name: Seq<char>, owner: Option<Seq<char>>) -> Result<
    (u64, ToyView),
    ContractError,
> {
    match owner {
        Some(owner) => Ok(((id + 1) as u64, ToyView { id, name, owner })),
        None => Err(ContractError::InvalidAddress),
    }
}

/// The registry after a mint: the new toy stands under the old value of the
/// counter and the counter has moved on by one. A mint that fails changes
/// nothing.
pub open spec fn after_mint(
    registry: RegistryView,
    name: Seq<char>,
    owner: Option<Seq<char>>,
) -> RegistryView {
    match minted(registry.next_id, name, owner) {
        Ok((next_id, toy)) => RegistryView {
            next_id,
            toys: registry.toys.insert(registry.next_id, toy),
        },
        Err(_) => registry,
    }
}

/// The number that a mint gives its toy, or the error.
pub open spec fn mint_verdict(
    registry: RegistryView,
    name: Seq<char>,
    owner: Option<Seq<char>>,
) -> Result<u64, ContractError> {
    match minted(registry.next_id, name, owner) {
        Ok((_, toy)) => Ok(toy.id),
        Err(e) => Err(e),
    }
}

/// The view of what `mint` decided.
pub open spec fn decision_view(outcome: Result<(Config, Toy), ContractError>) -> Result<
    (u64, ToyView),
    ContractError,
> {
    match outcome {
        Ok((config, toy)) => Ok((config.next_id, toy@)),
        Err(e) => Err(e),
    }
}

/// What a transfer makes of the toy under a number. It fails with `NotFound`
/// without a toy, with `Unauthorized` if the sender is not the toy's owner,
/// and with `InvalidAddress` if the validator rejected the new owner's
/// address, in this order. Otherwise only the owner changes.
pub open spec fn transferred(
    current: Option<ToyView>,
    sender: Seq<char>,
    new_owner: Option<Seq<char>>,
) -> Result<ToyView, ContractError> {
    match current {
        Some(toy) => if toy.owner != sender {
            Err(ContractError::Unauthorized)
        } else {
            match new_owner {
                Some(owner) => Ok(ToyView { id: toy.id, name: toy.name, owner }),
                None => Err(ContractError::InvalidAddress),
            }
        },
        None => Err(ContractError::NotFound),
    }
}

/// The registry after a transfer. A transfer that fails changes nothing.
pub open spec fn after_transfer(
    registry: RegistryView,
    sender: Seq<char>,
    toy_id: u64,
    new_owner: Option<Seq<char>>,
) -> RegistryView {
    RegistryView {
        next_id: registry.next_id,
        toys: applied(
            registry.toys,
            toy_id,
            transferred(lookup(registry.toys, toy_id), sender, new_owner),
        ),
    }
}

/// Whether a transfer succeeds, and the error if it does not.
pub open spec fn transfer_verdict(
    registry: RegistryView,
    sender: Seq<char>,
    toy_id: u64,
    new_owner: Option<Seq<char>>,
) -> Result<(), ContractError> {
    verdict(transferred(lookup(registry.toys, toy_id), sender, new_owner))
}

/// The toy under `toy_id`, or `NotFound`.
pub open spec fn toy_found(registry: RegistryView, toy_id: u64) -> Result<ToyView, ContractError> {
    match lookup(registry.toys, toy_id) {
        Some(toy) => Ok(toy),
        None => Err(ContractError::NotFound),
    }
}

/// The test that keeps the toys of one owner.
pub open spec fn is_owned_by(owner: Seq<char>) -> spec_fn(ToyView) -> bool {
    |toy: ToyView| toy.owner == owner
}

/// The toys of one owner in ascending order of their numbers, or
/// `InvalidAddress` if the validator rejected the owner's address.
pub open spec fn toys_owned(registry: RegistryView, owner: Option<Seq<char>>) -> Result<
    Seq<ToyView>,
    ContractError,
> {
    match owner {
        Some(owner) => Ok(
            records_in_key_order::<u64, ToyView>(registry.toys).filter(is_owned_by(owner)),
        ),
        None => Err(ContractError::InvalidAddress),
    }
}

/// The registry after a command from `sender`.
pub open spec fn executed(registry: RegistryView, sender: Seq<char>, msg: ExecuteMsg) -> RegistryView {
    match msg {
        ExecuteMsg::Mint { toy_name, owner } => after_mint(registry, toy_name@, address_of(owner)),
        ExecuteMsg::Transfer { toy_id, new_owner } => after_transfer(
            registry,
            sender,
            toy_id,
            address_of(new_owner),
        ),
    }
}

/// What a command on a toy reports: the command and the toy's number in
/// decimal notation.
pub open spec fn toy_report(method: Seq<char>, toy_id: u64) -> Attributes {
    seq![(method_key(), method), ("toy_id"@, decimal(toy_id as nat))]
}

/// What a mint reports if it succeeds, and the error if it does not.
pub open spec fn mint_report(
    registry: RegistryView,
    name: Seq<char>,
    owner: Option<Seq<char>>,
) -> Result<Attributes, ContractError> {
    report(mint_verdict(registry, name, owner), toy_report("mint"@, registry.next_id))
}

/// What a transfer reports if it succeeds, and the error if it does not.
pub open spec fn transfer_report(
    registry: RegistryView,
    sender: Seq<char>,
    toy_id: u64,
    new_owner: Option<Seq<char>>,
) -> Result<Attributes, ContractError> {
    report(
        transfer_verdict(registry, sender, toy_id, new_owner),
        toy_report("transfer"@, toy_id),
    )
}

/// What a command from `sender` reports if it succeeds, and the error if it
/// does not.
pub open spec fn execution_report(
    registry: RegistryView,
    sender: Seq<char>,
    msg: ExecuteMsg,
) -> Result<Attributes, ContractError> {
    match msg {
        ExecuteMsg::Mint { toy_name, owner } => mint_report(registry, toy_name@, address_of(owner)),
        ExecuteMsg::Transfer { toy_id, new_owner } => transfer_report(
            registry,
            sender,
            toy_id,
            address_of(new_owner),
        ),
    }
}

/// The response of a command on a toy that has succeeded.
fn toy_response(method: &str, toy_id: u64) -> (response: Response<Empty>)
    ensures
        attributes_of(response) == toy_report(method@, toy_id),
        reports_only(Ok(response)),
{
    proof {
        reveal_strlit("toy_id");
    }
    let response = with_attribute(method_response(method), "toy_id", decimal_text(toy_id));
    assert(attributes_of(response) =~= toy_report(method@, toy_id));
    response
}

/// The answer to a question.
pub open spec fn answered(registry: RegistryView, msg: QueryMsg) -> Result<
    AnswerView,
    ContractError,
> {
    match msg {
        QueryMsg::GetToyInfo { toy_id } => match toy_found(registry, toy_id) {
            Ok(toy) => Ok(AnswerView::ToyInfo(toy)),
            Err(e) => Err(e),
        },
        QueryMsg::ListToysByOwner { owner } => match toys_owned(registry, address_of(owner)) {
            Ok(toys) => Ok(AnswerView::ToysByOwner(toys)),
            Err(e) => Err(e),
        },
    }
}

/// The decision of a mint: given the counter, the counter and the toy to
/// store, or the reason to refuse.
pub fn mint(config: Config, toy_name: String, owner: Option<Principal>) -> (outcome: Result<
    (Config, Toy),
    ContractError,
>)
    requires
        config.next_id < u64::MAX,
    ensures
        decision_view(outcome) == minted(config.next_id, toy_name@, address_of(owner)),
{
    let toy_id = config.next_id;
    let next = Config { next_id: config.next_id + 1 };
    match owner {
        Some(owner) => Ok((next, Toy { id: toy_id, name: toy_name, owner })),
        None => Err(ContractError::InvalidAddress),
    }
}

/// The update that transfers a toy: given what is stored under the toy's
/// number, the record to store in its place.
pub fn transfer(current: Option<&Toy>, sender: &Principal, new_owner: Option<Principal>) -> (outcome:
    Result<Toy, ContractError>)
    ensures
        outcome_view(outcome) == transferred(view_of(current), sender@, address_of(new_owner)),
{
    match current {
        Some(toy) => {
            if !toy.owner.same_as(sender) {
                return Err(ContractError::Unauthorized);
            }
            match new_owner {
                Some(owner) => Ok(Toy { id: toy.id, name: toy.name.clone(), owner }),
                None => Err(ContractError::InvalidAddress),
            }
        },
        None => Err(ContractError::NotFound),
    }
}

/// A new registry, with no toys and the counter at `FIRST_ID`, and the
/// response to the request: a response without attributes.
pub fn instantiate(_msg: InstantiateMsg) -> (made: (Registry, Response<Empty>))
    ensures
        made.0@ == (RegistryView { next_id: FIRST_ID, toys: Map::empty() }),
        made.0@.consistent(),
        attributes_of(made.1) == Attributes::empty(),
        reports_only(Ok(made.1)),
{
    (Registry { config: Config { next_id: FIRST_ID }, toys: Table::new() }, new_response())
}

/// Carries out a command from `sender`. A command that fails leaves the
/// registry as it was.
pub fn execute(registry: &mut Registry, sender: &Principal, msg: ExecuteMsg) -> (r: Result<
    Response<Empty>,
    ContractError,
>)
    requires
        msg is Mint ==> old(registry)@.next_id < u64::MAX,
    ensures
        reported(r) == execution_report(old(registry)@, sender@, msg),
        reports_only(r),
        final(registry)@ == executed(old(registry)@, sender@, msg),
{
    match msg {
        ExecuteMsg::Mint { toy_name, owner } => execute_mint(registry, toy_name, owner),
        ExecuteMsg::Transfer { toy_id, new_owner } => execute_transfer(
            registry,
            sender,
            toy_id,
            new_owner,
        ),
    }
}

/// Mints a toy for `owner` under the value of the counter and moves the
/// counter on by one. Fails with `InvalidAddress`, and changes nothing, if
/// the validator rejected the owner's address.
pub fn execute_mint(registry: &mut Registry, toy_name: String, owner: Option<Principal>) -> (r:
    Result<Response<Empty>, ContractError>)
    requires
        old(registry)@.next_id < u64::MAX,
    ensures
        reported(r) == mint_report(old(registry)@, toy_name@, address_of(owner)),
        reports_only(r),
        final(registry)@ == after_mint(old(registry)@, toy_name@, address_of(owner)),
{
    match mint(registry.config, toy_name, owner) {
        Ok((config, toy)) => {
            let toy_id = toy.id;
            registry.config = config;
            registry.toys.put(toy_id, toy);
            Ok(toy_response("mint", toy_id))
        },
        Err(e) => Err(e),
    }
}

/// Hands the toy under `toy_id` to `new_owner`. Fails, and changes nothing,
/// with `NotFound` if there is no such toy, with `Unauthorized` if `sender`
/// is not its owner, and with `InvalidAddress` if the validator rejected the
/// new owner's address.
pub fn execute_transfer(
    registry: &mut Registry,
    sender: &Principal,
    toy_id: u64,
    new_owner: Option<Principal>,
) -> (r: Result<Response<Empty>, ContractError>)
    ensures
        reported(r) == transfer_report(old(registry)@, sender@, toy_id, address_of(new_owner)),
        reports_only(r),
        final(registry)@ == after_transfer(old(registry)@, sender@, toy_id, address_of(new_owner)),
{
    let change = |current: Option<&Toy>| -> (outcome: Result<Toy, ContractError>)
        ensures
            outcome_view(outcome) == transferred(view_of(current), sender@, address_of(new_owner)),
        {
            transfer(current, sender, new_owner)
        };
    match registry.toys.update(toy_id, change) {
        Ok(()) => Ok(toy_response("transfer", toy_id)),
        Err(e) => Err(e),
    }
}

/// Answers a question about the registry.
pub fn query(registry: &Registry, msg: QueryMsg) -> (r: Result<QueryResponse, ContractError>)
    ensures
        outcome_view(r) == answered(registry@, msg),
{
    match msg {
        QueryMsg::GetToyInfo { toy_id } => {
            match query_toy_info(registry, toy_id) {
                Ok(toy) => Ok(QueryResponse::ToyInfo(toy)),
                Err(e) => Err(e),
            }
        },
        QueryMsg::ListToysByOwner { owner } => {
            match query_toys_by_owner(registry, owner) {
                Ok(toys) => Ok(QueryResponse::ToysByOwner(toys)),
                Err(e) => Err(e),
            }
        },
    }
}

/// The toy under `toy_id`. Fails with `NotFound` if there is none.
pub fn query_toy_info(registry: &Registry, toy_id: u64) -> (r: Result<Toy, ContractError>)
    ensures
        outcome_view(r) == toy_found(registry@, toy_id),
{
    match registry.toys.get(&toy_id) {
        Some(toy) => Ok(toy.clone()),
        None => Err(ContractError::NotFound),
    }
}

/// The toys of `owner`, in ascending order of their numbers; none is no
/// error. Fails with `InvalidAddress` if the validator rejected the address.
pub fn query_toys_by_owner(registry: &Registry, owner: Option<Principal>) -> (r: Result<
    Toys,
    ContractError,
>)
    ensures
        listing_view(r) == toys_owned(registry@, address_of(owner)),
{
    let owner = match owner {
        Some(owner) => owner,
        None => {
            return Err(ContractError::InvalidAddress);
        },
    };
    let listing = registry.toys.range(None, None, Order::Ascending);
    let ghost all = listing@.map_values(|e: (&u64, &Toy)| e.1@);
    let ghost keep = is_owned_by(owner@);
    let mut toys: Toys = Vec::new();
    let mut i: usize = 0;
    proof {
        reveal(Seq::filter);
        assert(all.take(0) =~= Seq::<ToyView>::empty());
        assert(views(toys@) =~= Seq::<ToyView>::empty());
    }
    while i < listing.len()
        invariant
            i <= listing.len(),
            all == listing@.map_values(|e: (&u64, &Toy)| e.1@),
            keep == is_owned_by(owner@),
            views(toys@) == all.take(i as int).filter(keep),
        decreases listing.len() - i,
    {
        let toy = listing[i].1;
        proof {
            assert(all.take(i + 1) =~= all.take(i as int).push(all[i as int]));
            all.take(i as int).lemma_filter_push(all[i as int], keep);
        }
        if toy.owner.same_as(&owner) {
            let ghost before = toys@;
            let copy = toy.clone();
            toys.push(copy);
            assert(views(toys@) =~= views(before).push(copy@));
        }
        i += 1;
    }
    proof {
        assert(all.take(listing.len() as int) =~= all);
        lemma_full_listing::<u64, Toy>(listing@, registry.toys@);
    }
    Ok(toys)
}

} // verus!
