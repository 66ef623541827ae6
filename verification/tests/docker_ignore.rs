use cbuilder::docker_ignore::{first_verdict, keep_unflagged, DockerIgnore};

fn owned(items: &[&str]) -> Vec<String> {
    items.iter().map(|item| item.to_string()).collect()
}

#[test]
fn remove_lines_works() {
    let lines = vec!["# first_line", "second_line", " "];

    assert_eq!(DockerIgnore::remove_comments(lines), vec!["second_line"]);
}

#[test]
fn filter_works_correctly() {
    let files = vec![
        "example_proj/dependencies/file",
        "example_proj/src/code.sh",
        "example_proj/Dockerfile",
    ];

    let paths: Vec<String> = files.iter().map(|file| file.to_string()).collect();

    let ignore = DockerIgnore {
        rules: vec!["dependencies".to_owned()],
    };

    let filtered = ignore.filter_files(&paths);

    let expected: Vec<String> = vec!["example_proj/src/code.sh", "example_proj/Dockerfile"]
        .into_iter()
        .map(|f| f.to_string())
        .collect();

    assert_eq!(filtered, Some(expected));
}

#[test]
fn rules_are_regular_expressions() {
    let ignore = DockerIgnore { rules: owned(&["^target/", "\\.log$", "a.c"]) };
    let files = owned(&["target/debug/app", "src/target/x", "build.log", "log/build", "abc", "ac"]);
    assert_eq!(
        ignore.filter_files(&files),
        Some(owned(&["src/target/x", "log/build", "ac"]))
    );
    assert_eq!(ignore.should_remove_file("notes.log"), Some(true));
    assert_eq!(ignore.should_remove_file("notes.logs"), Some(false));
}

#[test]
fn a_rule_that_cannot_be_compiled_gives_no_answer() {
    let ignore = DockerIgnore { rules: owned(&["foo(bar"]) };
    assert_eq!(ignore.should_remove_file("foo"), None);
    assert_eq!(ignore.filter_files(&owned(&["foo"])), None);
    assert_eq!(ignore.filter_files(&owned(&[])), Some(owned(&[])));
}

#[test]
fn the_first_match_settles_it() {
    let ignore = DockerIgnore { rules: owned(&["src", "foo(bar"]) };
    assert_eq!(ignore.should_remove_file("src/main.rs"), Some(true));
    assert_eq!(ignore.should_remove_file("docs/readme"), None);
}

#[test]
fn without_rules_every_file_stays() {
    let ignore = DockerIgnore { rules: vec![] };
    let files = owned(&["a", "b"]);
    assert_eq!(ignore.filter_files(&files), Some(files.clone()));
    assert_eq!(ignore.should_remove_file("a"), Some(false));
}

#[test]
fn new_reads_one_rule_from_each_line() {
    let ignore = DockerIgnore::new("# comment\ntarget\n\n   \n\t\nnode_modules\n #not a comment\n");
    assert_eq!(ignore.rules, owned(&["target", "node_modules", " #not a comment"]));
    assert_eq!(DockerIgnore::new("").rules, owned(&[]));
    assert_eq!(DockerIgnore::new("one").rules, owned(&["one"]));
}

#[test]
fn blank_lines_are_judged_by_unicode_white_space() {
    let lines = vec!["\u{2003}\u{00a0}", "\u{200b}", "x"];
    assert_eq!(DockerIgnore::remove_comments(lines), vec!["\u{200b}", "x"]);
}

#[test]
fn keep_unflagged_keeps_what_has_no_set_flag() {
    let files = owned(&["a", "b", "c", "d"]);
    assert_eq!(keep_unflagged(&files, &vec![true, false, true, false]), owned(&["b", "d"]));
    assert_eq!(keep_unflagged(&files, &vec![true]), owned(&["b", "c", "d"]));
    assert_eq!(keep_unflagged(&files, &vec![]), files);
}

#[test]
fn first_verdict_is_the_first_answer_that_is_not_a_no() {
    assert_eq!(first_verdict(&vec![]), Some(false));
    assert_eq!(first_verdict(&vec![Some(false), Some(false)]), Some(false));
    assert_eq!(first_verdict(&vec![Some(false), Some(true), None]), Some(true));
    assert_eq!(first_verdict(&vec![Some(false), None, Some(true)]), None);
    assert_eq!(first_verdict(&vec![None]), None);
    assert_eq!(first_verdict(&vec![Some(true)]), Some(true));
}
