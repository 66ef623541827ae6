use cbuilder::tag::{tag_parser, tags_validator, Tag};

#[test]
fn tags_parser_should_error_if_comma_at_start_or_end() {
    assert!(tag_parser(",Key=Value".to_owned()).is_err());
    assert!(tag_parser("Key=Value,".to_owned()).is_err());
}

#[test]
fn tags_parser_should_error_if_key_or_value_is_empty() {
    assert!(tag_parser("=Value".to_owned()).is_err());
    assert!(tag_parser("Key=".to_owned()).is_err());
}

#[test]
fn tags_parser_should_error_if_tag_does_not_have_2_parts() {
    assert!(tag_parser("Key=Value=Error".to_owned()).is_err());
    assert!(tag_parser("Key".to_owned()).is_err());
}

#[test]
fn tags_parser_should_ok_with_single_tag() {
    assert_eq!(
        tag_parser("Key=Value".to_owned()),
        Ok(vec![Tag::new("Key".to_owned(), "Value".to_owned())])
    );
}

#[test]
fn tags_parser_should_ok_with_multiple_values() {
    assert_eq!(
        tag_parser("Key1=Value1,Key2=Value2".to_owned()),
        Ok(vec![
            Tag::new("Key1".to_owned(), "Value1".to_owned()),
            Tag::new("Key2".to_owned(), "Value2".to_owned())
        ])
    );
}

#[test]
fn tag_parser_names_the_piece_it_refuses() {
    assert_eq!(
        tag_parser("A=1,=2".to_owned()),
        Err("Key in tag (=2) must not be empty".to_owned())
    );
    assert_eq!(
        tag_parser("A=1,B=".to_owned()),
        Err("Value in tag (B=) must not be empty".to_owned())
    );
    assert_eq!(
        tag_parser("A=1,B".to_owned()),
        Err("Tag (B) must contain Key & Value".to_owned())
    );
    assert_eq!(tag_parser("".to_owned()), Err("Tag must not be empty".to_owned()));
    assert_eq!(tag_parser("A=1,,B=2".to_owned()), Err("Tag must not be empty".to_owned()));
}

#[test]
fn tags_validator_agrees_with_the_parser() {
    assert_eq!(tags_validator("Key=Value".to_owned()), Ok(()));
    assert_eq!(
        tags_validator("Key".to_owned()),
        Err("Tag (Key) must contain Key & Value".to_owned())
    );
}
