use cosmwasm_std::{attr, Response};
use toy_ledger::error::ContractError;
use toy_ledger::principal::Principal;
use toy_ledger::sids_factory::contract::{
    customize, execute, instantiate, query, query_get_enhancements, query_get_repair_history,
    query_get_toy_customization, query_list_customizations, repair, try_add_accessory,
    try_change_appearance, try_customize, try_enhance_toy, try_repair_toy, try_upgrade_toy,
    Customization, DEFAULT_LIMIT,
};
use toy_ledger::sids_factory::msg::{ExecuteMsg, InstantiateMsg, QueryMsg, QueryResponse};
use toy_ledger::sids_factory::state::{RepairHistoryResponse, ToyCustomization, Workshop};

fn text(s: &str) -> String {
    s.to_string()
}

fn texts(items: &[&str]) -> Vec<String> {
    items.iter().map(|s| s.to_string()).collect()
}

fn who(s: &str) -> Principal {
    Principal::new(text(s))
}

fn valid(s: &str) -> Option<Principal> {
    Some(who(s))
}

fn blank(toy: &str) -> ToyCustomization {
    ToyCustomization {
        toy: who(toy),
        accessories: vec![],
        appearance: None,
        upgrades: vec![],
        enhancements: vec![],
    }
}

fn log(items: &[&str]) -> RepairHistoryResponse {
    RepairHistoryResponse { repairs: texts(items) }
}

fn done(method: &str, key: &str, value: &str) -> Result<Response, ContractError> {
    Ok(Response::new().add_attribute("method", method).add_attribute(key, value))
}

fn repaired() -> Result<Response, ContractError> {
    Ok(Response::new().add_attribute("method", "repair_toy"))
}

fn empty_workshop() -> Workshop {
    instantiate(InstantiateMsg {}).0
}

fn workshop_with(toys: &[&str]) -> Workshop {
    let mut workshop = empty_workshop();
    for toy in toys {
        workshop.customized_toys.put(who(toy), blank(toy));
        workshop.repair_history.put(who(toy), log(&[]));
    }
    workshop
}

#[test]
fn new_workshop_holds_nothing() {
    assert_eq!(instantiate(InstantiateMsg {}).1, Response::new());
    let workshop = empty_workshop();
    assert_eq!(workshop.customized_toys.len(), 0);
    assert_eq!(workshop.repair_history.len(), 0);
    assert_eq!(query_list_customizations(&workshop, None), vec![]);
}

#[test]
fn repair_history_of_an_unknown_toy_is_not_found() {
    let workshop = empty_workshop();
    assert_eq!(
        query_get_repair_history(&workshop, valid("unknown_toy")),
        Err(ContractError::NotFound)
    );
    let other = workshop_with(&["buzz"]);
    assert_eq!(
        query_get_repair_history(&other, valid("unknown_toy")),
        Err(ContractError::NotFound)
    );
}

#[test]
fn changes_to_a_toy_without_a_record_are_not_found() {
    let mut workshop = empty_workshop();
    assert_eq!(
        try_add_accessory(&mut workshop, valid("buzz"), text("wings")),
        Err(ContractError::NotFound)
    );
    assert_eq!(
        try_change_appearance(&mut workshop, valid("buzz"), text("shiny")),
        Err(ContractError::NotFound)
    );
    assert_eq!(
        try_upgrade_toy(&mut workshop, valid("buzz"), text("laser")),
        Err(ContractError::NotFound)
    );
    assert_eq!(
        try_enhance_toy(&mut workshop, valid("buzz"), text("voice")),
        Err(ContractError::NotFound)
    );
    assert_eq!(
        try_repair_toy(&mut workshop, valid("buzz"), text("100")),
        Err(ContractError::NotFound)
    );
    assert_eq!(workshop.customized_toys.len(), 0);
    assert_eq!(workshop.repair_history.len(), 0);
}

#[test]
fn a_rejected_address_is_invalid_for_every_command() {
    let mut workshop = workshop_with(&["buzz"]);
    assert_eq!(
        try_add_accessory(&mut workshop, None, text("wings")),
        Err(ContractError::InvalidAddress)
    );
    assert_eq!(
        try_change_appearance(&mut workshop, None, text("shiny")),
        Err(ContractError::InvalidAddress)
    );
    assert_eq!(
        try_upgrade_toy(&mut workshop, None, text("laser")),
        Err(ContractError::InvalidAddress)
    );
    assert_eq!(
        try_enhance_toy(&mut workshop, None, text("voice")),
        Err(ContractError::InvalidAddress)
    );
    assert_eq!(
        try_repair_toy(&mut workshop, None, text("100")),
        Err(ContractError::InvalidAddress)
    );
    assert_eq!(query_get_toy_customization(&workshop, valid("buzz")), Ok(blank("buzz")));
    assert_eq!(query_get_repair_history(&workshop, valid("buzz")), Ok(log(&[])));
}

#[test]
fn a_rejected_address_is_invalid_for_every_question() {
    let workshop = workshop_with(&["buzz"]);
    assert_eq!(
        query_get_toy_customization(&workshop, None),
        Err(ContractError::InvalidAddress)
    );
    assert_eq!(query_get_repair_history(&workshop, None), Err(ContractError::InvalidAddress));
    assert_eq!(query_get_enhancements(&workshop, None), Err(ContractError::InvalidAddress));
}

#[test]
fn accessories_are_appended_and_may_repeat() {
    let mut workshop = workshop_with(&["buzz"]);
    for accessory in ["wings", "helmet", "wings"] {
        assert_eq!(
            try_add_accessory(&mut workshop, valid("buzz"), text(accessory)),
            done("add_accessory", "accessory", accessory)
        );
    }
    let mut expected = blank("buzz");
    expected.accessories = texts(&["wings", "helmet", "wings"]);
    assert_eq!(query_get_toy_customization(&workshop, valid("buzz")), Ok(expected));
}

#[test]
fn appearance_is_overwritten() {
    let mut workshop = workshop_with(&["buzz"]);
    assert_eq!(
        try_change_appearance(&mut workshop, valid("buzz"), text("shiny")),
        done("change_appearance", "appearance", "shiny")
    );
    assert_eq!(
        query_get_toy_customization(&workshop, valid("buzz")).unwrap().appearance,
        Some(text("shiny"))
    );
    assert_eq!(
        try_change_appearance(&mut workshop, valid("buzz"), text("muddy")),
        done("change_appearance", "appearance", "muddy")
    );
    let mut expected = blank("buzz");
    expected.appearance = Some(text("muddy"));
    assert_eq!(query_get_toy_customization(&workshop, valid("buzz")), Ok(expected));
}

#[test]
fn upgrades_and_enhancements_are_appended() {
    let mut workshop = workshop_with(&["buzz"]);
    try_upgrade_toy(&mut workshop, valid("buzz"), text("laser")).unwrap();
    try_enhance_toy(&mut workshop, valid("buzz"), text("voice")).unwrap();
    try_upgrade_toy(&mut workshop, valid("buzz"), text("jetpack")).unwrap();
    try_enhance_toy(&mut workshop, valid("buzz"), text("glow")).unwrap();
    try_add_accessory(&mut workshop, valid("buzz"), text("wings")).unwrap();
    let expected = ToyCustomization {
        toy: who("buzz"),
        accessories: texts(&["wings"]),
        appearance: None,
        upgrades: texts(&["laser", "jetpack"]),
        enhancements: texts(&["voice", "glow"]),
    };
    assert_eq!(query_get_toy_customization(&workshop, valid("buzz")), Ok(expected));
    assert_eq!(query_get_enhancements(&workshop, valid("buzz")), Ok(texts(&["voice", "glow"])));
}

#[test]
fn enhancements_of_a_toy_without_a_record_are_not_found() {
    let workshop = workshop_with(&["buzz"]);
    assert_eq!(query_get_enhancements(&workshop, valid("woody")), Err(ContractError::NotFound));
    assert_eq!(
        query_get_toy_customization(&workshop, valid("woody")),
        Err(ContractError::NotFound)
    );
    assert_eq!(query_get_enhancements(&workshop, valid("buzz")), Ok(vec![]));
}

#[test]
fn repairs_are_appended_to_the_log() {
    let mut workshop = workshop_with(&["buzz"]);
    assert_eq!(try_repair_toy(&mut workshop, valid("buzz"), text("100")), repaired());
    assert_eq!(try_repair_toy(&mut workshop, valid("buzz"), text("250")), repaired());
    assert_eq!(try_repair_toy(&mut workshop, valid("buzz"), text("250")), repaired());
    assert_eq!(
        query_get_repair_history(&workshop, valid("buzz")),
        Ok(log(&["100", "250", "250"]))
    );
    assert_eq!(query_get_toy_customization(&workshop, valid("buzz")), Ok(blank("buzz")));
}

#[test]
fn a_record_does_not_make_a_repair_log() {
    let mut workshop = empty_workshop();
    workshop.customized_toys.put(who("buzz"), blank("buzz"));
    assert_eq!(
        try_repair_toy(&mut workshop, valid("buzz"), text("100")),
        Err(ContractError::NotFound)
    );
    assert_eq!(
        query_get_repair_history(&workshop, valid("buzz")),
        Err(ContractError::NotFound)
    );
    assert_eq!(
        try_add_accessory(&mut workshop, valid("buzz"), text("wings")),
        done("add_accessory", "accessory", "wings")
    );
}

#[test]
fn a_change_to_one_toy_leaves_the_others() {
    let mut workshop = workshop_with(&["buzz", "woody"]);
    try_add_accessory(&mut workshop, valid("buzz"), text("wings")).unwrap();
    try_repair_toy(&mut workshop, valid("woody"), text("7")).unwrap();
    assert_eq!(query_get_toy_customization(&workshop, valid("woody")), Ok(blank("woody")));
    assert_eq!(query_get_repair_history(&workshop, valid("buzz")), Ok(log(&[])));
    assert_eq!(query_get_repair_history(&workshop, valid("woody")), Ok(log(&["7"])));
}

#[test]
fn listing_without_a_limit_holds_ten_records() {
    assert_eq!(DEFAULT_LIMIT, 10);
    let names = ["l", "c", "a", "k", "e", "b", "j", "d", "i", "f", "h", "g"];
    let workshop = workshop_with(&names);
    let listed: Vec<Principal> =
        query_list_customizations(&workshop, None).into_iter().map(|r| r.toy).collect();
    let expected: Vec<Principal> =
        ["a", "b", "c", "d", "e", "f", "g", "h", "i", "j"].iter().map(|s| who(s)).collect();
    assert_eq!(listed, expected);
}

#[test]
fn listing_with_a_limit_holds_the_first_records() {
    let workshop = workshop_with(&["woody", "buzz", "rex", "hamm"]);
    assert_eq!(
        query_list_customizations(&workshop, Some(3)),
        vec![blank("buzz"), blank("hamm"), blank("rex")]
    );
    assert_eq!(query_list_customizations(&workshop, Some(1)), vec![blank("buzz")]);
    assert_eq!(query_list_customizations(&workshop, Some(0)), vec![]);
}

#[test]
fn listing_with_a_large_limit_holds_all_records() {
    let workshop = workshop_with(&["woody", "buzz", "rex"]);
    let all = vec![blank("buzz"), blank("rex"), blank("woody")];
    assert_eq!(query_list_customizations(&workshop, Some(3)), all);
    assert_eq!(query_list_customizations(&workshop, Some(4)), all);
    assert_eq!(query_list_customizations(&workshop, Some(u32::MAX)), all);
    assert_eq!(query_list_customizations(&workshop, None), all);
}

#[test]
fn listing_names_each_toy_by_the_address_it_is_stored_under() {
    let mut workshop = empty_workshop();
    let mut record = blank("someone else");
    record.accessories = texts(&["wings"]);
    workshop.customized_toys.put(who("buzz"), record);
    let mut expected = blank("buzz");
    expected.accessories = texts(&["wings"]);
    assert_eq!(query_list_customizations(&workshop, None), vec![expected]);
}

#[test]
fn workshop_execute_carries_out_each_command() {
    let mut workshop = workshop_with(&["buzz"]);
    let commands = vec![
        (
            ExecuteMsg::AddAccessory { toy: valid("buzz"), accessory: text("wings") },
            done("add_accessory", "accessory", "wings"),
        ),
        (
            ExecuteMsg::ChangeAppearance { toy: valid("buzz"), appearance: text("shiny") },
            done("change_appearance", "appearance", "shiny"),
        ),
        (
            ExecuteMsg::UpgradeToy { toy: valid("buzz"), upgrade: text("laser") },
            done("upgrade_toy", "upgrade", "laser"),
        ),
        (ExecuteMsg::RepairToy { toy: valid("buzz") }, repaired()),
        (
            ExecuteMsg::EnhanceToy { toy: valid("buzz"), enhancement: text("voice") },
            done("enhance_toy", "enhancement", "voice"),
        ),
    ];
    for (command, expected) in commands {
        assert_eq!(execute(&mut workshop, text("12345"), command), expected);
    }
    let expected = ToyCustomization {
        toy: who("buzz"),
        accessories: texts(&["wings"]),
        appearance: Some(text("shiny")),
        upgrades: texts(&["laser"]),
        enhancements: texts(&["voice"]),
    };
    assert_eq!(query_get_toy_customization(&workshop, valid("buzz")), Ok(expected));
    assert_eq!(query_get_repair_history(&workshop, valid("buzz")), Ok(log(&["12345"])));
    assert_eq!(
        execute(&mut workshop, text("12346"), ExecuteMsg::RepairToy { toy: valid("woody") }),
        Err(ContractError::NotFound)
    );
    assert_eq!(
        execute(&mut workshop, text("12346"), ExecuteMsg::RepairToy { toy: None }),
        Err(ContractError::InvalidAddress)
    );
    assert_eq!(
        execute(
            &mut workshop,
            text("12346"),
            ExecuteMsg::AddAccessory { toy: valid("woody"), accessory: text("hat") }
        ),
        Err(ContractError::NotFound)
    );
    assert_eq!(query_get_repair_history(&workshop, valid("buzz")), Ok(log(&["12345"])));
}

#[test]
fn workshop_query_answers_each_question() {
    let mut workshop = workshop_with(&["buzz", "woody"]);
    try_enhance_toy(&mut workshop, valid("buzz"), text("voice")).unwrap();
    try_repair_toy(&mut workshop, valid("buzz"), text("9")).unwrap();
    let mut buzz = blank("buzz");
    buzz.enhancements = texts(&["voice"]);
    assert_eq!(
        query(&workshop, QueryMsg::GetToyCustomization { toy: valid("buzz") }),
        Ok(QueryResponse::Customization(buzz.clone()))
    );
    assert_eq!(
        query(&workshop, QueryMsg::ListCustomizations { limit: None }),
        Ok(QueryResponse::Customizations(vec![buzz.clone(), blank("woody")]))
    );
    assert_eq!(
        query(&workshop, QueryMsg::ListCustomizations { limit: Some(1) }),
        Ok(QueryResponse::Customizations(vec![buzz]))
    );
    assert_eq!(
        query(&workshop, QueryMsg::GetRepairHistory { toy: valid("buzz") }),
        Ok(QueryResponse::RepairHistory(log(&["9"])))
    );
    assert_eq!(
        query(&workshop, QueryMsg::GetEnhancements { toy: valid("buzz") }),
        Ok(QueryResponse::Enhancements(texts(&["voice"])))
    );
    assert_eq!(
        query(&workshop, QueryMsg::GetEnhancements { toy: valid("rex") }),
        Err(ContractError::NotFound)
    );
    assert_eq!(
        query(&workshop, QueryMsg::GetRepairHistory { toy: None }),
        Err(ContractError::InvalidAddress)
    );
}

#[test]
fn customize_decides_from_the_stored_record() {
    assert_eq!(
        customize(None, Customization::Accessory(text("wings"))),
        Err(ContractError::NotFound)
    );
    let mut stored = blank("buzz");
    stored.accessories = texts(&["helmet"]);
    stored.appearance = Some(text("shiny"));
    let mut with_wings = stored.clone();
    with_wings.accessories = texts(&["helmet", "wings"]);
    assert_eq!(customize(Some(&stored), Customization::Accessory(text("wings"))), Ok(with_wings));
    let mut muddy = stored.clone();
    muddy.appearance = Some(text("muddy"));
    assert_eq!(customize(Some(&stored), Customization::Appearance(text("muddy"))), Ok(muddy));
    let mut upgraded = stored.clone();
    upgraded.upgrades = texts(&["laser"]);
    assert_eq!(customize(Some(&stored), Customization::Upgrade(text("laser"))), Ok(upgraded));
    let mut enhanced = stored.clone();
    enhanced.enhancements = texts(&["voice"]);
    assert_eq!(
        customize(Some(&stored), Customization::Enhancement(text("voice"))),
        Ok(enhanced)
    );
}

#[test]
fn repair_decides_from_the_stored_log() {
    assert_eq!(repair(None, text("5")), Err(ContractError::NotFound));
    assert_eq!(repair(Some(&log(&[])), text("5")), Ok(log(&["5"])));
    assert_eq!(repair(Some(&log(&["1", "5"])), text("5")), Ok(log(&["1", "5", "5"])));
}

#[test]
fn try_customize_applies_one_change() {
    let mut workshop = workshop_with(&["buzz"]);
    assert_eq!(
        try_customize(&mut workshop, valid("buzz"), Customization::Upgrade(text("laser"))),
        done("upgrade_toy", "upgrade", "laser")
    );
    assert_eq!(
        try_customize(&mut workshop, valid("rex"), Customization::Upgrade(text("laser"))),
        Err(ContractError::NotFound)
    );
    assert_eq!(
        try_customize(&mut workshop, None, Customization::Upgrade(text("laser"))),
        Err(ContractError::InvalidAddress)
    );
    let mut expected = blank("buzz");
    expected.upgrades = texts(&["laser"]);
    assert_eq!(query_get_toy_customization(&workshop, valid("buzz")), Ok(expected));
}

#[test]
fn a_change_reports_its_method_and_what_it_added() {
    let mut workshop = workshop_with(&["buzz"]);
    let response = try_add_accessory(&mut workshop, valid("buzz"), text("wings")).unwrap();
    assert_eq!(
        response.attributes,
        vec![attr("method", "add_accessory"), attr("accessory", "wings")]
    );
    assert!(response.messages.is_empty());
    assert!(response.events.is_empty());
    assert_eq!(response.data, None);
    let response = try_change_appearance(&mut workshop, valid("buzz"), text("shiny")).unwrap();
    assert_eq!(
        response.attributes,
        vec![attr("method", "change_appearance"), attr("appearance", "shiny")]
    );
    let response = try_upgrade_toy(&mut workshop, valid("buzz"), text("laser")).unwrap();
    assert_eq!(response.attributes, vec![attr("method", "upgrade_toy"), attr("upgrade", "laser")]);
    let response = try_enhance_toy(&mut workshop, valid("buzz"), text("voice")).unwrap();
    assert_eq!(
        response.attributes,
        vec![attr("method", "enhance_toy"), attr("enhancement", "voice")]
    );
    let response = try_repair_toy(&mut workshop, valid("buzz"), text("77")).unwrap();
    assert_eq!(response.attributes, vec![attr("method", "repair_toy")]);
}

#[test]
fn a_repair_log_can_be_cloned() {
    let stored = log(&["1", "2"]);
    assert_eq!(stored.clone(), stored);
}
