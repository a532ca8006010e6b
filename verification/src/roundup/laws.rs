//! What holds of the ownership registry whatever it holds.

use vstd::prelude::*;
use crate::error::ContractError;
use crate::roundup::contract::{
    after_mint,
    after_transfer,
    mint_verdict,
    toy_found,
    transfer_verdict,
    transferred,
};
use crate::roundup::state::{RegistryView, ToyView};
use crate::table::lookup;

verus! {

/// The registry after a sequence of mints, each given by the toy's name and
/// the owner's address as the validator judged it.
pub open spec fn after_mints(
    registry: RegistryView,
    requests: Seq<(Seq<char>, Option<Seq<char>>)>,
) -> RegistryView
    decreases requests.len(),
{
    if requests.len() == 0 {
        registry
    } else {
        after_mint(
            after_mints(registry, requests.drop_last()),
            requests.last().0,
            requests.last().1,
        )
    }
}

/// The numbers that a sequence of mints returns, in the order of the mints.
/// A mint that fails returns none.
pub open spec fn minted_ids(
    registry: RegistryView,
    requests: Seq<(Seq<char>, Option<Seq<char>>)>,
) -> Seq<u64>
    decreases requests.len(),
{
    if requests.len() == 0 {
        Seq::empty()
    } else {
        let earlier = minted_ids(registry, requests.drop_last());
        match mint_verdict(
            after_mints(registry, requests.drop_last()),
            requests.last().0,
            requests.last().1,
        ) {
            Ok(id) => earlier.push(id),
            Err(_) => earlier,
        }
    }
}

/// The numbers that a sequence of mints returns are strictly increasing, so
/// that no two are the same. They start at the counter's value before the
/// first mint and follow one another without a gap, and the counter ends at
/// the number after the last.
pub proof fn lemma_minted_ids_increase(
    registry: RegistryView,
    requests: Seq<(Seq<char>, Option<Seq<char>>)>,
)
    requires
        registry.next_id + requests.len() <= u64::MAX,
    ensures
        forall|i: int, j: int|
            0 <= i < j < minted_ids(registry, requests).len() ==> minted_ids(registry, requests)[i]
                < minted_ids(registry, requests)[j],
        forall|i: int|
            0 <= i < minted_ids(registry, requests).len() ==> minted_ids(registry, requests)[i]
                == registry.next_id + i,
        minted_ids(registry, requests).len() <= requests.len(),
        after_mints(registry, requests).next_id == registry.next_id + minted_ids(
            registry,
            requests,
        ).len(),
    decreases requests.len(),
{
    if requests.len() > 0 {
        lemma_minted_ids_increase(registry, requests.drop_last());
    }
}

/// A mint returns the counter's value and moves the counter on by one, so
/// that the next mint returns a greater number.
pub proof fn lemma_next_mint_is_greater(
    registry: RegistryView,
    name: Seq<char>,
    owner: Seq<char>,
    next_name: Seq<char>,
    next_owner: Seq<char>,
)
    requires
        registry.next_id + 1 < u64::MAX,
    ensures
        mint_verdict(registry, name, Some(owner)) == Ok::<u64, ContractError>(registry.next_id),
        mint_verdict(after_mint(registry, name, Some(owner)), next_name, Some(next_owner)) == Ok::<
            u64,
            ContractError,
        >((registry.next_id + 1) as u64),
{
}

/// A mint in a consistent registry leaves every toy that was there as it
/// was, and the registry consistent.
pub proof fn lemma_mint_keeps_toys(
    registry: RegistryView,
    name: Seq<char>,
    owner: Option<Seq<char>>,
    toy_id: u64,
)
    requires
        registry.consistent(),
        registry.next_id < u64::MAX,
        registry.toys.contains_key(toy_id),
    ensures
        lookup(after_mint(registry, name, owner).toys, toy_id) == lookup(registry.toys, toy_id),
        after_mint(registry, name, owner).consistent(),
{
}

/// Minting keeps a registry consistent.
pub proof fn lemma_mint_keeps_consistent(
    registry: RegistryView,
    name: Seq<char>,
    owner: Option<Seq<char>>,
)
    requires
        registry.consistent(),
        registry.next_id < u64::MAX,
    ensures
        after_mint(registry, name, owner).consistent(),
{
}

/// Transferring keeps a registry consistent.
pub proof fn lemma_transfer_keeps_consistent(
    registry: RegistryView,
    sender: Seq<char>,
    toy_id: u64,
    new_owner: Option<Seq<char>>,
)
    requires
        registry.consistent(),
    ensures
        after_transfer(registry, sender, toy_id, new_owner).consistent(),
{
}

/// A transfer that anyone but the owner asks for fails with `Unauthorized`
/// and leaves the registry, and so the owner, as it was.
pub proof fn lemma_transfer_needs_owner(
    registry: RegistryView,
    sender: Seq<char>,
    toy_id: u64,
    new_owner: Option<Seq<char>>,
)
    requires
        registry.toys.contains_key(toy_id),
        registry.toys[toy_id].owner != sender,
    ensures
        transfer_verdict(registry, sender, toy_id, new_owner) == Err::<(), ContractError>(
            ContractError::Unauthorized,
        ),
        after_transfer(registry, sender, toy_id, new_owner) == registry,
        toy_found(after_transfer(registry, sender, toy_id, new_owner), toy_id) == toy_found(
            registry,
            toy_id,
        ),
{
}

/// A transfer that the owner asks for, to an address that the validator
/// accepted, succeeds and changes the owner and nothing else.
pub proof fn lemma_transfer_by_owner(
    registry: RegistryView,
    toy_id: u64,
    new_owner: Seq<char>,
)
    requires
        registry.toys.contains_key(toy_id),
    ensures
        transfer_verdict(registry, registry.toys[toy_id].owner, toy_id, Some(new_owner)) == Ok::<
            (),
            ContractError,
        >(()),
        toy_found(
            after_transfer(registry, registry.toys[toy_id].owner, toy_id, Some(new_owner)),
            toy_id,
        ) == Ok::<ToyView, ContractError>(
            ToyView { id: registry.toys[toy_id].id, name: registry.toys[toy_id].name, owner: new_owner },
        ),
        after_transfer(registry, registry.toys[toy_id].owner, toy_id, Some(new_owner)).next_id
            == registry.next_id,
        forall|other: u64|
            other != toy_id ==> lookup(
                after_transfer(registry, registry.toys[toy_id].owner, toy_id, Some(new_owner)).toys,
                other,
            ) == lookup(registry.toys, other),
{
}

/// Once a toy has gone to another owner, its former owner can no longer
/// transfer it.
pub proof fn lemma_former_owner_is_refused(
    registry: RegistryView,
    toy_id: u64,
    new_owner: Seq<char>,
    later_owner: Option<Seq<char>>,
)
    requires
        registry.toys.contains_key(toy_id),
        registry.toys[toy_id].owner != new_owner,
    ensures
        transfer_verdict(
            after_transfer(registry, registry.toys[toy_id].owner, toy_id, Some(new_owner)),
            registry.toys[toy_id].owner,
            toy_id,
            later_owner,
        ) == Err::<(), ContractError>(ContractError::Unauthorized),
{
}

/// A transfer never changes the number or the name of a toy.
pub proof fn lemma_transfer_keeps_identity(
    toy: ToyView,
    sender: Seq<char>,
    new_owner: Option<Seq<char>>,
)
    ensures
        transferred(Some(toy), sender, new_owner) matches Ok(next) ==> next.id == toy.id
            && next.name == toy.name,
{
}

} // verus!
