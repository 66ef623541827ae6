use cbuilder::config::Config;
use serde_yaml::{Mapping, Value};

fn text(text: String) -> Value {
    Value::String(text)
}

fn key(name: &str) -> Value {
    Value::String(name.to_owned())
}

/// The settings as the document that is kept on disk.
fn written(config: &Config) -> String {
    let mut accounts = Vec::new();
    for account_no in config.get_account_numbers() {
        let mut account = Mapping::new();
        account.insert(key("profile"), text(config.get_account_profile(account_no.clone()).unwrap()));
        account.insert(key("account_no"), text(account_no));
        accounts.push(Value::Mapping(account));
    }
    let mut document = Mapping::new();
    document.insert(key("instance_ip"), text(config.get_instance_ip()));
    document.insert(key("base_profile"), text(config.get_base_profile()));
    document.insert(key("sub_accounts"), Value::Sequence(accounts));
    serde_yaml::to_string(&Value::Mapping(document)).unwrap()
}

fn read(document: &str) -> Config {
    let value: Value = serde_yaml::from_str(document).unwrap();
    let field = |value: &Value, name: &str| value[name].as_str().unwrap().to_owned();
    let mut config = Config::new(field(&value, "instance_ip"), field(&value, "base_profile"));
    for account in value["sub_accounts"].as_sequence().unwrap() {
        config.add_account(field(account, "profile"), field(account, "account_no"));
    }
    config
}

#[test]
fn settings_with_an_empty_ledger_come_back_as_written() {
    let config = Config::new("203.0.113.7".to_owned(), "base".to_owned());
    let again = read(&written(&config));
    assert_eq!(again, config);
    assert_eq!(again.get_instance_ip(), "203.0.113.7");
    assert_eq!(again.get_base_profile(), "base");
    assert_eq!(again.get_account_numbers(), Vec::<String>::new());
}

#[test]
fn settings_with_a_resolved_duplicate_come_back_as_written() {
    let mut config = Config::new("203.0.113.7".to_owned(), "base".to_owned());
    config.add_account("one".to_owned(), "111".to_owned());
    config.add_account("two".to_owned(), "222".to_owned());
    config.add_account("one again".to_owned(), "111".to_owned());
    let again = read(&written(&config));
    assert_eq!(again, config);
    assert_eq!(again.get_account_numbers(), vec!["222".to_owned(), "111".to_owned()]);
    assert_eq!(again.get_account_profile("111".to_owned()), Some("one again".to_owned()));
    assert_eq!(again.get_account_profile("222".to_owned()), Some("two".to_owned()));
}

#[test]
fn a_document_that_repeats_a_number_is_read_with_the_last_entry_winning() {
    let document = "instance_ip: 1.1.1.1\nbase_profile: base\nsub_accounts:\n  - profile: a\n    account_no: \"1\"\n  - profile: b\n    account_no: \"2\"\n  - profile: c\n    account_no: \"1\"\n";
    let config = read(document);
    assert_eq!(config.get_account_numbers(), vec!["2".to_owned(), "1".to_owned()]);
    assert_eq!(config.get_account_profile("1".to_owned()), Some("c".to_owned()));
}
