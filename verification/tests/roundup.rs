use cosmwasm_std::{attr, Response};
use toy_ledger::error::ContractError;
use toy_ledger::principal::Principal;
use toy_ledger::roundup::contract::{
    execute, execute_mint, execute_transfer, instantiate, mint, query, query_toy_info,
    query_toys_by_owner, transfer, FIRST_ID,
};
use toy_ledger::roundup::msg::{ExecuteMsg, InstantiateMsg, QueryMsg, QueryResponse};
use toy_ledger::roundup::state::{Config, Registry, Toy};
use toy_ledger::table::Table;

fn text(s: &str) -> String {
    s.to_string()
}

fn who(s: &str) -> Principal {
    Principal::new(text(s))
}

fn valid(s: &str) -> Option<Principal> {
    Some(who(s))
}

fn toy(id: u64, name: &str, owner: &str) -> Toy {
    Toy { id, name: text(name), owner: who(owner) }
}

fn minted(toy_id: u64) -> Result<Response, ContractError> {
    Ok(Response::new().add_attribute("method", "mint").add_attribute("toy_id", toy_id.to_string()))
}

fn transferred(toy_id: u64) -> Result<Response, ContractError> {
    Ok(Response::new()
        .add_attribute("method", "transfer")
        .add_attribute("toy_id", toy_id.to_string()))
}

fn new_registry() -> Registry {
    instantiate(InstantiateMsg {}).0
}

#[test]
fn new_registry_is_empty_and_counts_from_one() {
    assert_eq!(instantiate(InstantiateMsg {}).1, Response::new());
    let registry = new_registry();
    assert_eq!(FIRST_ID, 1);
    assert_eq!(registry.config, Config { next_id: 1 });
    assert_eq!(registry.toys.len(), 0);
}

#[test]
fn mints_number_toys_and_owner_listing_finds_them() {
    let mut registry = new_registry();
    assert_eq!(execute_mint(&mut registry, text("robot"), valid("alice")), minted(1));
    assert_eq!(execute_mint(&mut registry, text("car"), valid("bob")), minted(2));
    assert_eq!(
        query_toys_by_owner(&registry, valid("alice")),
        Ok(vec![toy(1, "robot", "alice")])
    );
    assert_eq!(registry.config.next_id, 3);
}

#[test]
fn transfer_by_owner_succeeds_and_former_owner_is_refused() {
    let mut registry = new_registry();
    execute_mint(&mut registry, text("robot"), valid("alice")).unwrap();
    assert_eq!(execute_transfer(&mut registry, &who("alice"), 1, valid("bob")), transferred(1));
    assert_eq!(query_toy_info(&registry, 1), Ok(toy(1, "robot", "bob")));
    assert_eq!(
        execute_transfer(&mut registry, &who("alice"), 1, valid("carol")),
        Err(ContractError::Unauthorized)
    );
    assert_eq!(query_toy_info(&registry, 1), Ok(toy(1, "robot", "bob")));
}

#[test]
fn transfer_by_anyone_else_is_unauthorized_and_keeps_the_owner() {
    let mut registry = new_registry();
    execute_mint(&mut registry, text("robot"), valid("alice")).unwrap();
    for stranger in ["bob", "carol", "", "alic", "alice ", "Alice"] {
        assert_eq!(
            execute_transfer(&mut registry, &who(stranger), 1, valid(stranger)),
            Err(ContractError::Unauthorized)
        );
        assert_eq!(query_toy_info(&registry, 1), Ok(toy(1, "robot", "alice")));
    }
}

#[test]
fn transfer_of_a_missing_toy_is_not_found() {
    let mut registry = new_registry();
    execute_mint(&mut registry, text("robot"), valid("alice")).unwrap();
    assert_eq!(
        execute_transfer(&mut registry, &who("alice"), 2, valid("bob")),
        Err(ContractError::NotFound)
    );
    assert_eq!(
        execute_transfer(&mut registry, &who("alice"), 0, None),
        Err(ContractError::NotFound)
    );
    assert_eq!(query_toy_info(&registry, 1), Ok(toy(1, "robot", "alice")));
}

#[test]
fn transfer_to_a_rejected_address_is_invalid_and_keeps_the_owner() {
    let mut registry = new_registry();
    execute_mint(&mut registry, text("robot"), valid("alice")).unwrap();
    assert_eq!(
        execute_transfer(&mut registry, &who("alice"), 1, None),
        Err(ContractError::InvalidAddress)
    );
    assert_eq!(query_toy_info(&registry, 1), Ok(toy(1, "robot", "alice")));
}

#[test]
fn a_stranger_with_a_rejected_address_is_unauthorized() {
    let mut registry = new_registry();
    execute_mint(&mut registry, text("robot"), valid("alice")).unwrap();
    assert_eq!(
        execute_transfer(&mut registry, &who("bob"), 1, None),
        Err(ContractError::Unauthorized)
    );
}

#[test]
fn transfer_to_oneself_succeeds() {
    let mut registry = new_registry();
    execute_mint(&mut registry, text("robot"), valid("alice")).unwrap();
    assert_eq!(execute_transfer(&mut registry, &who("alice"), 1, valid("alice")), transferred(1));
    assert_eq!(query_toy_info(&registry, 1), Ok(toy(1, "robot", "alice")));
}

#[test]
fn mint_for_a_rejected_address_changes_nothing() {
    let mut registry = new_registry();
    assert_eq!(
        execute_mint(&mut registry, text("robot"), None),
        Err(ContractError::InvalidAddress)
    );
    assert_eq!(registry.config.next_id, 1);
    assert_eq!(registry.toys.len(), 0);
    assert_eq!(execute_mint(&mut registry, text("car"), valid("bob")), minted(1));
}

#[test]
fn minted_numbers_increase_one_by_one() {
    let mut registry = new_registry();
    let mut numbers = Vec::new();
    for i in 0..40u64 {
        let owner = if i % 7 == 3 { None } else { valid("alice") };
        if let Ok(response) = execute_mint(&mut registry, format!("toy {}", i), owner) {
            assert_eq!(response.attributes[1].key, "toy_id");
            numbers.push(response.attributes[1].value.parse::<u64>().unwrap());
        }
    }
    assert_eq!(numbers.len(), 34);
    assert_eq!(numbers[0], 1);
    for pair in numbers.windows(2) {
        assert!(pair[0] < pair[1]);
        assert_eq!(pair[0] + 1, pair[1]);
    }
    assert_eq!(registry.config.next_id, 35);
}

#[test]
fn mint_works_up_to_the_last_number() {
    let mut registry =
        Registry { config: Config { next_id: u64::MAX - 1 }, toys: Table::new() };
    assert_eq!(execute_mint(&mut registry, text("last"), valid("alice")), minted(u64::MAX - 1));
    assert_eq!(registry.config.next_id, u64::MAX);
    assert_eq!(query_toy_info(&registry, u64::MAX - 1), Ok(toy(u64::MAX - 1, "last", "alice")));
}

#[test]
fn a_command_reports_its_method_and_the_number_of_its_toy() {
    let mut registry =
        Registry { config: Config { next_id: 18446744073709551614 }, toys: Table::new() };
    let response = execute_mint(&mut registry, text("last"), valid("alice")).unwrap();
    assert_eq!(
        response.attributes,
        vec![attr("method", "mint"), attr("toy_id", "18446744073709551614")]
    );
    assert!(response.messages.is_empty());
    assert!(response.events.is_empty());
    assert_eq!(response.data, None);
    let mut registry = Registry { config: Config { next_id: 1090 }, toys: Table::new() };
    execute_mint(&mut registry, text("robot"), valid("alice")).unwrap();
    let response = execute_transfer(&mut registry, &who("alice"), 1090, valid("bob")).unwrap();
    assert_eq!(response.attributes, vec![attr("method", "transfer"), attr("toy_id", "1090")]);
    let mut registry = Registry { config: Config { next_id: 0 }, toys: Table::new() };
    let response = execute_mint(&mut registry, text("zero"), valid("alice")).unwrap();
    assert_eq!(response.attributes, vec![attr("method", "mint"), attr("toy_id", "0")]);
}

#[test]
fn toy_info_of_a_missing_toy_is_not_found() {
    let mut registry = new_registry();
    assert_eq!(query_toy_info(&registry, 1), Err(ContractError::NotFound));
    execute_mint(&mut registry, text("robot"), valid("alice")).unwrap();
    assert_eq!(query_toy_info(&registry, 2), Err(ContractError::NotFound));
    assert_eq!(query_toy_info(&registry, 0), Err(ContractError::NotFound));
}

#[test]
fn owner_listing_is_in_ascending_number_order() {
    let mut registry = new_registry();
    for (name, owner) in
        [("robot", "alice"), ("car", "bob"), ("doll", "alice"), ("ball", "carol"), ("kite", "alice")]
    {
        execute_mint(&mut registry, text(name), valid(owner)).unwrap();
    }
    execute_transfer(&mut registry, &who("bob"), 2, valid("alice")).unwrap();
    execute_transfer(&mut registry, &who("alice"), 3, valid("bob")).unwrap();
    assert_eq!(
        query_toys_by_owner(&registry, valid("alice")),
        Ok(vec![toy(1, "robot", "alice"), toy(2, "car", "alice"), toy(5, "kite", "alice")])
    );
    assert_eq!(query_toys_by_owner(&registry, valid("bob")), Ok(vec![toy(3, "doll", "bob")]));
}

#[test]
fn owner_listing_without_toys_is_empty() {
    let mut registry = new_registry();
    assert_eq!(query_toys_by_owner(&registry, valid("alice")), Ok(vec![]));
    execute_mint(&mut registry, text("robot"), valid("alice")).unwrap();
    assert_eq!(query_toys_by_owner(&registry, valid("bob")), Ok(vec![]));
}

#[test]
fn owner_listing_for_a_rejected_address_is_invalid() {
    let mut registry = new_registry();
    execute_mint(&mut registry, text("robot"), valid("alice")).unwrap();
    assert_eq!(query_toys_by_owner(&registry, None), Err(ContractError::InvalidAddress));
}

#[test]
fn registry_execute_carries_out_each_command() {
    let mut registry = new_registry();
    assert_eq!(
        execute(
            &mut registry,
            &who("anyone"),
            ExecuteMsg::Mint { toy_name: text("robot"), owner: valid("alice") }
        ),
        minted(1)
    );
    assert_eq!(
        execute(
            &mut registry,
            &who("anyone"),
            ExecuteMsg::Mint { toy_name: text("robot"), owner: None }
        ),
        Err(ContractError::InvalidAddress)
    );
    assert_eq!(
        execute(
            &mut registry,
            &who("bob"),
            ExecuteMsg::Transfer { toy_id: 1, new_owner: valid("bob") }
        ),
        Err(ContractError::Unauthorized)
    );
    assert_eq!(
        execute(
            &mut registry,
            &who("alice"),
            ExecuteMsg::Transfer { toy_id: 1, new_owner: valid("bob") }
        ),
        transferred(1)
    );
    assert_eq!(
        execute(
            &mut registry,
            &who("alice"),
            ExecuteMsg::Transfer { toy_id: 9, new_owner: valid("bob") }
        ),
        Err(ContractError::NotFound)
    );
    assert_eq!(query_toy_info(&registry, 1), Ok(toy(1, "robot", "bob")));
}

#[test]
fn registry_query_answers_each_question() {
    let mut registry = new_registry();
    execute_mint(&mut registry, text("robot"), valid("alice")).unwrap();
    execute_mint(&mut registry, text("car"), valid("alice")).unwrap();
    assert_eq!(
        query(&registry, QueryMsg::GetToyInfo { toy_id: 2 }),
        Ok(QueryResponse::ToyInfo(toy(2, "car", "alice")))
    );
    assert_eq!(
        query(&registry, QueryMsg::GetToyInfo { toy_id: 3 }),
        Err(ContractError::NotFound)
    );
    assert_eq!(
        query(&registry, QueryMsg::ListToysByOwner { owner: valid("alice") }),
        Ok(QueryResponse::ToysByOwner(vec![toy(1, "robot", "alice"), toy(2, "car", "alice")]))
    );
    assert_eq!(
        query(&registry, QueryMsg::ListToysByOwner { owner: None }),
        Err(ContractError::InvalidAddress)
    );
}

#[test]
fn mint_decides_from_the_counter() {
    assert_eq!(
        mint(Config { next_id: 7 }, text("robot"), valid("alice")),
        Ok((Config { next_id: 8 }, toy(7, "robot", "alice")))
    );
    assert_eq!(
        mint(Config { next_id: 7 }, text("robot"), None),
        Err(ContractError::InvalidAddress)
    );
}

#[test]
fn transfer_decides_from_the_stored_record() {
    let stored = toy(4, "robot", "alice");
    assert_eq!(transfer(None, &who("alice"), valid("bob")), Err(ContractError::NotFound));
    assert_eq!(
        transfer(Some(&stored), &who("bob"), valid("bob")),
        Err(ContractError::Unauthorized)
    );
    assert_eq!(
        transfer(Some(&stored), &who("alice"), None),
        Err(ContractError::InvalidAddress)
    );
    assert_eq!(transfer(Some(&stored), &who("alice"), valid("bob")), Ok(toy(4, "robot", "bob")));
}

#[test]
fn principals_compare_by_their_text() {
    assert!(who("alice").same_as(&who("alice")));
    assert!(!who("alice").same_as(&who("bob")));
    assert_eq!(who("alice").as_string(), "alice");
    assert_eq!(who("alice").clone(), who("alice"));
}
