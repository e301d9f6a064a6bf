use invoice_backend::store::{
    from_rows, get_config_setting, get_setting, init_database, is_first_run, set_config_setting,
    set_setting, SettingsTable,
};
use std::collections::BTreeMap;

fn contents(table: &SettingsTable) -> BTreeMap<String, String> {
    let mut map = BTreeMap::new();
    for i in 0..table.len() {
        let (key, value) = table.row(i);
        assert!(map.insert(key, value).is_none());
    }
    map
}

fn pair(key: &str, value: &str) -> (String, String) {
    (key.to_string(), value.to_string())
}

#[test]
fn new_table_is_empty() {
    let table = SettingsTable::new();
    assert_eq!(table.len(), 0);
    assert_eq!(get_setting(&table, "amount"), None);
}

#[test]
fn set_then_get() {
    let mut table = SettingsTable::new();
    set_setting(&mut table, "amount", "12.50");
    assert_eq!(get_setting(&table, "amount"), Some("12.50".to_string()));
    assert_eq!(get_setting(&table, "sender"), None);
    assert_eq!(table.len(), 1);
}

#[test]
fn set_replaces_the_value() {
    let mut table = SettingsTable::new();
    set_setting(&mut table, "amount", "1");
    set_setting(&mut table, "sender", "ACME");
    set_setting(&mut table, "amount", "2");
    assert_eq!(table.len(), 2);
    assert_eq!(get_setting(&table, "amount"), Some("2".to_string()));
    assert_eq!(get_setting(&table, "sender"), Some("ACME".to_string()));
    assert_eq!(table.row(0), pair("amount", "2"));
    assert_eq!(table.row(1), pair("sender", "ACME"));
}

#[test]
fn keys_are_exact() {
    let mut table = SettingsTable::new();
    set_setting(&mut table, "amount", "1");
    set_setting(&mut table, "Amount", "2");
    set_setting(&mut table, "", "empty key");
    assert_eq!(get_setting(&table, "amount"), Some("1".to_string()));
    assert_eq!(get_setting(&table, "Amount"), Some("2".to_string()));
    assert_eq!(get_setting(&table, ""), Some("empty key".to_string()));
    assert_eq!(get_setting(&table, "amoun"), None);
}

#[test]
fn values_may_span_lines() {
    let mut table = SettingsTable::new();
    set_setting(&mut table, "recipients", "A\nB\n\nC");
    assert_eq!(get_config_setting(&table, "recipients"), "A\nB\n\nC");
}

#[test]
fn from_rows_lets_later_rows_stand() {
    let table = from_rows(&vec![pair("a", "1"), pair("b", "2"), pair("a", "3")]);
    let mut expected = BTreeMap::new();
    expected.insert("a".to_string(), "3".to_string());
    expected.insert("b".to_string(), "2".to_string());
    assert_eq!(contents(&table), expected);
    assert_eq!(contents(&from_rows(&Vec::new())), BTreeMap::new());
}

#[test]
fn get_config_setting_defaults_to_empty() {
    let mut table = SettingsTable::new();
    assert_eq!(get_config_setting(&table, "amount"), "");
    set_config_setting(&mut table, "amount", "7");
    assert_eq!(get_config_setting(&table, "amount"), "7");
    assert_eq!(get_config_setting(&table, "sender"), "");
}

#[test]
fn init_database_seeds_examples_and_sentinel() {
    let mut table = SettingsTable::new();
    init_database(&mut table);
    let mut expected = BTreeMap::new();
    expected.insert(
        "sender".to_string(),
        "Your Company Name\nYour Address\nCity, Postal Code\nCountry".to_string(),
    );
    expected.insert(
        "bankdetails".to_string(),
        "Bank Name: Your Bank\nAccount: 1234-56-78901\nIBAN: NO1234567890123456\nBIC: BANKNO22"
            .to_string(),
    );
    expected.insert(
        "description".to_string(),
        "Consulting services\nWeb development\nProject management".to_string(),
    );
    expected.insert("amount".to_string(), "5000.00".to_string());
    expected.insert(
        "recipients".to_string(),
        "Client Company\nclient@example.com\nClient Address\nCity, Postal Code\n\nAnother Client\nanother@example.com\nAnother Address\nCity, Postal Code"
            .to_string(),
    );
    expected.insert("_app_initialized".to_string(), "true".to_string());
    assert_eq!(contents(&table), expected);
}

#[test]
fn init_database_keeps_existing_values() {
    let mut table = SettingsTable::new();
    set_setting(&mut table, "amount", "42");
    set_setting(&mut table, "theme", "dark");
    init_database(&mut table);
    assert_eq!(table.len(), 7);
    assert_eq!(get_setting(&table, "amount"), Some("42".to_string()));
    assert_eq!(get_setting(&table, "theme"), Some("dark".to_string()));
    assert_eq!(get_setting(&table, "_app_initialized"), Some("true".to_string()));
    assert_eq!(
        get_setting(&table, "description"),
        Some("Consulting services\nWeb development\nProject management".to_string())
    );
}

#[test]
fn init_database_twice_changes_nothing() {
    let mut table = SettingsTable::new();
    set_setting(&mut table, "sender", "ACME");
    init_database(&mut table);
    let once = contents(&table);
    init_database(&mut table);
    assert_eq!(contents(&table), once);
}

#[test]
fn first_run_ends_with_the_sentinel() {
    let mut table = SettingsTable::new();
    assert!(is_first_run(&table));
    set_setting(&mut table, "amount", "1");
    assert!(is_first_run(&table));
    init_database(&mut table);
    assert!(!is_first_run(&table));
}

#[test]
fn sentinel_value_does_not_matter() {
    let mut table = SettingsTable::new();
    set_setting(&mut table, "_app_initialized", "false");
    assert!(!is_first_run(&table));
}

#[test]
fn rows_come_in_the_order_first_written() {
    let mut table = SettingsTable::new();
    set_setting(&mut table, "c", "1");
    set_setting(&mut table, "a", "2");
    set_setting(&mut table, "b", "3");
    set_setting(&mut table, "a", "4");
    let rows: Vec<(String, String)> = (0..table.len()).map(|i| table.row(i)).collect();
    assert_eq!(rows, vec![pair("c", "1"), pair("a", "4"), pair("b", "3")]);
}
