use cbuilder::trust::{account_roles_value, derive_trust_arns, role_arn, trusted_accounts};

fn owned(items: &[&str]) -> Vec<String> {
    items.iter().map(|item| item.to_string()).collect()
}

#[test]
fn role_arn_is_built_from_the_account_number() {
    assert_eq!(role_arn("123456789012"), "arn:aws:iam::123456789012:role/ContainerBuilderPushRole");
    assert_eq!(role_arn(""), "arn:aws:iam:::role/ContainerBuilderPushRole");
}

#[test]
fn derive_trust_arns_gives_one_role_for_each_account_in_order() {
    assert_eq!(
        derive_trust_arns(&owned(&["2", "1", "2"])),
        owned(&[
            "arn:aws:iam::2:role/ContainerBuilderPushRole",
            "arn:aws:iam::1:role/ContainerBuilderPushRole",
            "arn:aws:iam::2:role/ContainerBuilderPushRole",
        ])
    );
    assert_eq!(derive_trust_arns(&owned(&[])), owned(&[]));
}

#[test]
fn trusted_accounts_is_the_union_in_ledger_order() {
    assert_eq!(
        trusted_accounts(owned(&["1", "2"]), "3".to_owned(), "9".to_owned()),
        owned(&["1", "2", "3", "9"])
    );
    assert_eq!(
        trusted_accounts(owned(&["1", "2"]), "2".to_owned(), "9".to_owned()),
        owned(&["1", "2", "9"])
    );
    assert_eq!(
        trusted_accounts(owned(&["9", "2"]), "3".to_owned(), "9".to_owned()),
        owned(&["9", "2", "3"])
    );
    assert_eq!(trusted_accounts(owned(&[]), "7".to_owned(), "7".to_owned()), owned(&["7"]));
}

#[test]
fn account_roles_value_joins_the_roles_with_commas() {
    assert_eq!(
        account_roles_value(&owned(&["1", "2"])),
        "arn:aws:iam::1:role/ContainerBuilderPushRole,arn:aws:iam::2:role/ContainerBuilderPushRole"
    );
    assert_eq!(account_roles_value(&owned(&["1"])), "arn:aws:iam::1:role/ContainerBuilderPushRole");
    assert_eq!(account_roles_value(&owned(&[])), "");
}
