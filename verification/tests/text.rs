use cbuilder::text::{join_strings, split_str};

fn owned(items: &[&str]) -> Vec<String> {
    items.iter().map(|item| item.to_string()).collect()
}

#[test]
fn split_str_cuts_at_every_separator() {
    assert_eq!(split_str("a,b,c", ','), owned(&["a", "b", "c"]));
    assert_eq!(split_str("", ','), owned(&[""]));
    assert_eq!(split_str(",", ','), owned(&["", ""]));
    assert_eq!(split_str("a,,b,", ','), owned(&["a", "", "b", ""]));
    assert_eq!(split_str("no separator", ','), owned(&["no separator"]));
    assert_eq!(split_str("gr\u{fc}n=bl\u{e4}u", '='), owned(&["gr\u{fc}n", "bl\u{e4}u"]));
}

#[test]
fn split_str_agrees_with_std() {
    for text in ["", "a", "a.b", ".a.", "..", "x.y.z.", "k=v=w"] {
        for sep in ['.', '='] {
            let expected: Vec<String> = text.split(sep).map(|piece| piece.to_owned()).collect();
            assert_eq!(split_str(text, sep), expected);
        }
    }
}

#[test]
fn join_strings_puts_the_separator_between_parts() {
    assert_eq!(join_strings(&owned(&["a", "b", "c"]), ", "), "a, b, c");
    assert_eq!(join_strings(&owned(&["a"]), ", "), "a");
    assert_eq!(join_strings(&owned(&[]), ", "), "");
    assert_eq!(join_strings(&owned(&["", ""]), "-"), "-");
}

#[test]
fn splitting_what_was_joined_gives_the_parts_back() {
    let parts = owned(&["one", "", "three"]);
    assert_eq!(split_str(&join_strings(&parts, ","), ','), parts);
}
