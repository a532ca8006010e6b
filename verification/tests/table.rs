use cosmwasm_std::{attr, Response};
use toy_ledger::keys::{bytes_precede, text_precedes, Key};
use toy_ledger::principal::Principal;
use toy_ledger::response::{decimal_text, method_response};
use toy_ledger::table::{Order, Table};

fn text(s: &str) -> String {
    s.to_string()
}

fn numbers(keys: &[u64]) -> Table<u64, Principal> {
    let mut table = Table::new();
    for key in keys {
        table.put(*key, Principal::new(format!("v{}", key)));
    }
    table
}

fn value(key: u64) -> Principal {
    Principal::new(format!("v{}", key))
}

fn keys_of(listing: Vec<(&u64, &Principal)>) -> Vec<u64> {
    listing.into_iter().map(|(k, _)| *k).collect()
}

#[test]
fn an_empty_table_holds_nothing() {
    let table: Table<u64, Principal> = Table::new();
    assert_eq!(table.len(), 0);
    assert!(!table.contains_key(&0));
    assert_eq!(table.get(&0), None);
    assert!(table.range(None, None, Order::Ascending).is_empty());
    assert!(table.range(None, None, Order::Descending).is_empty());
}

#[test]
fn put_then_get_returns_the_record() {
    let table = numbers(&[5, 3, 9]);
    assert_eq!(table.len(), 3);
    assert_eq!(table.get(&3), Some(&value(3)));
    assert_eq!(table.get(&5), Some(&value(5)));
    assert_eq!(table.get(&9), Some(&value(9)));
    assert_eq!(table.get(&4), None);
    assert!(table.contains_key(&9));
    assert!(!table.contains_key(&10));
}

#[test]
fn put_overwrites_the_record_under_the_key() {
    let mut table = numbers(&[5, 3, 9]);
    table.put(3, Principal::new(text("new")));
    assert_eq!(table.len(), 3);
    assert_eq!(table.get(&3), Some(&Principal::new(text("new"))));
    assert_eq!(table.get(&5), Some(&value(5)));
}

#[test]
fn delete_removes_the_record_and_nothing_else() {
    let mut table = numbers(&[5, 3, 9]);
    table.delete(&5);
    assert_eq!(table.len(), 2);
    assert_eq!(table.get(&5), None);
    assert_eq!(table.get(&3), Some(&value(3)));
    assert_eq!(table.get(&9), Some(&value(9)));
    table.delete(&5);
    table.delete(&100);
    assert_eq!(table.len(), 2);
    assert_eq!(keys_of(table.range(None, None, Order::Ascending)), vec![3, 9]);
}

#[test]
fn update_stores_what_the_change_returns() {
    let mut table = numbers(&[1, 2]);
    let seen = table.update(2, |current: Option<&Principal>| -> Result<Principal, String> {
        assert_eq!(current, Some(&Principal::new("v2".to_string())));
        Ok(Principal::new("changed".to_string()))
    });
    assert_eq!(seen, Ok(()));
    assert_eq!(table.get(&2), Some(&Principal::new(text("changed"))));
    let made = table.update(7, |current: Option<&Principal>| -> Result<Principal, String> {
        assert_eq!(current, None);
        Ok(Principal::new("made".to_string()))
    });
    assert_eq!(made, Ok(()));
    assert_eq!(table.get(&7), Some(&Principal::new(text("made"))));
    assert_eq!(table.len(), 3);
}

#[test]
fn a_failed_update_leaves_the_table_as_it_was() {
    let mut table = numbers(&[1, 2]);
    let refused = table.update(2, |_current: Option<&Principal>| -> Result<Principal, String> {
        Err("no".to_string())
    });
    assert_eq!(refused, Err(text("no")));
    let refused = table.update(3, |_current: Option<&Principal>| -> Result<Principal, String> {
        Err("still no".to_string())
    });
    assert_eq!(refused, Err(text("still no")));
    assert_eq!(table.len(), 2);
    assert_eq!(table.get(&2), Some(&value(2)));
    assert_eq!(table.get(&3), None);
}

#[test]
fn range_without_bounds_lists_everything_in_order() {
    let table = numbers(&[50, 10, 40, 20, 30]);
    assert_eq!(
        keys_of(table.range(None, None, Order::Ascending)),
        vec![10, 20, 30, 40, 50]
    );
    assert_eq!(
        keys_of(table.range(None, None, Order::Descending)),
        vec![50, 40, 30, 20, 10]
    );
    let listing = table.range(None, None, Order::Ascending);
    assert_eq!(listing[2], (&30, &value(30)));
}

#[test]
fn range_includes_its_start_and_excludes_its_end() {
    let table = numbers(&[50, 10, 40, 20, 30]);
    assert_eq!(keys_of(table.range(Some(&20), Some(&40), Order::Ascending)), vec![20, 30]);
    assert_eq!(keys_of(table.range(Some(&20), Some(&40), Order::Descending)), vec![30, 20]);
    assert_eq!(keys_of(table.range(Some(&15), Some(&45), Order::Ascending)), vec![20, 30, 40]);
    assert_eq!(keys_of(table.range(Some(&20), None, Order::Ascending)), vec![20, 30, 40, 50]);
    assert_eq!(keys_of(table.range(None, Some(&20), Order::Ascending)), vec![10]);
    assert_eq!(keys_of(table.range(None, Some(&10), Order::Ascending)), Vec::<u64>::new());
    assert_eq!(keys_of(table.range(Some(&51), None, Order::Descending)), Vec::<u64>::new());
}

#[test]
fn range_with_start_at_or_after_end_is_empty() {
    let table = numbers(&[50, 10, 40, 20, 30]);
    assert_eq!(keys_of(table.range(Some(&30), Some(&30), Order::Ascending)), Vec::<u64>::new());
    assert_eq!(keys_of(table.range(Some(&40), Some(&20), Order::Ascending)), Vec::<u64>::new());
    assert_eq!(keys_of(table.range(Some(&40), Some(&20), Order::Descending)), Vec::<u64>::new());
}

#[test]
fn a_table_keyed_by_text_lists_in_byte_order() {
    let mut table: Table<String, Principal> = Table::new();
    for key in ["pear", "apple", "fig", "apples", "Fig"] {
        table.put(text(key), Principal::new(text(key)));
    }
    let keys: Vec<String> =
        table.range(None, None, Order::Ascending).into_iter().map(|(k, _)| k.clone()).collect();
    assert_eq!(keys, vec![text("Fig"), text("apple"), text("apples"), text("fig"), text("pear")]);
    let some: Vec<String> = table
        .range(Some(&text("apple")), Some(&text("fig")), Order::Descending)
        .into_iter()
        .map(|(k, _)| k.clone())
        .collect();
    assert_eq!(some, vec![text("apples"), text("apple")]);
}

#[test]
fn many_keys_stay_in_order() {
    let mut table: Table<u64, Principal> = Table::new();
    let mut key: u64 = 7;
    for _ in 0..200 {
        key = (key * 73 + 11) % 1009;
        table.put(key, value(key));
    }
    let keys = keys_of(table.range(None, None, Order::Ascending));
    assert_eq!(keys.len(), table.len());
    for pair in keys.windows(2) {
        assert!(pair[0] < pair[1]);
    }
    for k in &keys {
        assert_eq!(table.get(k), Some(&value(*k)));
    }
}

#[test]
fn bytes_are_ordered_lexicographically() {
    assert!(bytes_precede(b"", b"a"));
    assert!(!bytes_precede(b"", b""));
    assert!(!bytes_precede(b"a", b""));
    assert!(bytes_precede(b"a", b"b"));
    assert!(!bytes_precede(b"b", b"a"));
    assert!(bytes_precede(b"ab", b"abc"));
    assert!(!bytes_precede(b"abc", b"ab"));
    assert!(!bytes_precede(b"abc", b"abc"));
    assert!(bytes_precede(b"abc", b"abd"));
    assert!(bytes_precede(&[0x7f], &[0x80]));
    assert!(bytes_precede(&[1, 255], &[2, 0]));
}

#[test]
fn texts_are_ordered_as_their_bytes() {
    assert!(text_precedes(&text("Zoo"), &text("apple")));
    assert!(!text_precedes(&text("apple"), &text("Zoo")));
    assert!(text_precedes(&text("z"), &text("é")));
    assert!(!text_precedes(&text("same"), &text("same")));
}

#[test]
fn keys_decide_their_order() {
    assert!(3u64.precedes(&4));
    assert!(!4u64.precedes(&4));
    assert!(!5u64.precedes(&4));
    assert!(text("a").precedes(&text("b")));
    assert!(!text("b").precedes(&text("a")));
    assert!(Principal::new(text("alice")).precedes(&Principal::new(text("bob"))));
    assert!(!Principal::new(text("bob")).precedes(&Principal::new(text("alice"))));
}

#[test]
fn numbers_are_written_in_decimal() {
    assert_eq!(decimal_text(0), "0");
    assert_eq!(decimal_text(7), "7");
    assert_eq!(decimal_text(10), "10");
    assert_eq!(decimal_text(1090), "1090");
    assert_eq!(decimal_text(9876543210), "9876543210");
    assert_eq!(decimal_text(u64::MAX), "18446744073709551615");
}

#[test]
fn a_method_response_names_the_method() {
    let response = method_response("mint");
    assert_eq!(response, Response::new().add_attribute("method", "mint"));
    assert_eq!(response.attributes, vec![attr("method", "mint")]);
}
