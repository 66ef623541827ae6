use cbuilder::config::Config;

fn owned(items: &[&str]) -> Vec<String> {
    items.iter().map(|item| item.to_string()).collect()
}

#[test]
fn adding_a_duplicate_account_updates_the_profile() {
    let mut config = Config::new("0.0.0.0".to_owned(), "base".to_owned());
    config.add_account("profile2".to_owned(), "123".to_owned());
    assert_eq!(
        config.get_account_profile("123".to_owned()),
        Some("profile2".to_owned())
    );

    config.add_account("profile3".to_owned(), "123".to_owned());
    assert_eq!(
        config.get_account_profile("123".to_owned()),
        Some("profile3".to_owned())
    );
}

#[test]
fn new_config_has_an_empty_ledger() {
    let config = Config::new("10.0.0.1".to_owned(), "base".to_owned());
    assert_eq!(config.get_instance_ip(), "10.0.0.1");
    assert_eq!(config.get_base_profile(), "base");
    assert_eq!(config.get_account_numbers(), owned(&[]));
    assert_eq!(config.get_account_profile("1".to_owned()), None);
}

#[test]
fn adding_a_present_account_moves_it_to_the_end() {
    let mut config = Config::new("0.0.0.0".to_owned(), "base".to_owned());
    config.add_account("a".to_owned(), "111".to_owned());
    config.add_account("b".to_owned(), "222".to_owned());
    config.add_account("c".to_owned(), "333".to_owned());
    assert_eq!(config.get_account_numbers(), owned(&["111", "222", "333"]));

    config.add_account("a2".to_owned(), "111".to_owned());
    assert_eq!(config.get_account_numbers(), owned(&["222", "333", "111"]));
    assert_eq!(config.get_account_profile("111".to_owned()), Some("a2".to_owned()));
    assert_eq!(config.get_account_profile("222".to_owned()), Some("b".to_owned()));
    assert_eq!(config.get_account_profile("333".to_owned()), Some("c".to_owned()));

    config.add_account("c2".to_owned(), "333".to_owned());
    assert_eq!(config.get_account_numbers(), owned(&["222", "111", "333"]));
}

#[test]
fn the_ledger_is_as_long_as_the_distinct_numbers_added() {
    let mut config = Config::new("0.0.0.0".to_owned(), "base".to_owned());
    let added = ["1", "2", "1", "3", "2", "2", "1"];
    for (turn, number) in added.iter().enumerate() {
        config.add_account(format!("profile{}", turn), number.to_string());
        let mut distinct: Vec<&str> = added[..=turn].to_vec();
        distinct.sort();
        distinct.dedup();
        assert_eq!(config.get_account_numbers().len(), distinct.len());
    }
    assert_eq!(config.get_account_numbers(), owned(&["3", "2", "1"]));
    assert_eq!(config.get_account_profile("1".to_owned()), Some("profile6".to_owned()));
}

#[test]
fn set_instance_ip_changes_the_address_alone() {
    let mut config = Config::new("0.0.0.0".to_owned(), "base".to_owned());
    config.add_account("a".to_owned(), "111".to_owned());
    config.set_instance_ip("1.2.3.4".to_owned());
    assert_eq!(config.get_instance_ip(), "1.2.3.4");
    assert_eq!(config.get_base_profile(), "base");
    assert_eq!(config.get_account_numbers(), owned(&["111"]));
}

fn rebuilt(config: &Config) -> Config {
    let mut copy = Config::new(config.get_instance_ip(), config.get_base_profile());
    for number in config.get_account_numbers() {
        let profile = config.get_account_profile(number.clone()).unwrap();
        copy.add_account(profile, number);
    }
    copy
}

#[test]
fn a_config_is_rebuilt_field_for_field() {
    let empty = Config::new("0.0.0.0".to_owned(), "base".to_owned());
    assert_eq!(rebuilt(&empty), empty);

    let mut config = Config::new("1.1.1.1".to_owned(), "base".to_owned());
    config.add_account("a".to_owned(), "111".to_owned());
    config.add_account("b".to_owned(), "222".to_owned());
    config.add_account("a2".to_owned(), "111".to_owned());
    assert_eq!(rebuilt(&config), config);
    assert_eq!(config.duplicate(), config);
}
