//! The ignore file of a build context: which of the context's files stay
//! out of the archive that is sent to the build host.

use crate::text::{lemma_filter_push, split, split_str};
use regex::Regex;
use vstd::prelude::*;
use vstd::string::*;

verus! {

/// Whether a character is white space, as `char::is_whitespace` tells.
pub uninterp spec fn is_white_space(c: char) -> bool;

/// Calls `char::is_whitespace`, which tells whether the character has the
/// Unicode property `White_Space`. Its answer is only given a name.
#[verifier::external_body]
fn char_is_whitespace(c: char) -> (yes: bool)
    ensures
        yes == is_white_space(c),
{
    c.is_whitespace()
}

/// Whether the regular expression `pattern` matches anywhere in `haystack`,
/// as the `regex` crate tells of a pattern that it can compile.
pub uninterp spec fn regex_finds(pattern: Seq<char>, haystack: Seq<char>) -> bool;

/// Compiles `pattern` with `regex::Regex::new` and searches `haystack` with
/// `Regex::is_match`. `None` means that the pattern was refused: it is
/// malformed, or its program would be larger than the crate allows. Of when
/// that happens nothing is claimed. Where the pattern was compiled, the
/// answer of the search is given a name, and nothing else is claimed of it.
#[verifier::external_body]
fn search(pattern: &str, haystack: &str) -> (found: Option<bool>)
    ensures
        found matches Some(yes) ==> yes == regex_finds(pattern@, haystack@),
{
    match Regex::new(pattern) {
        Ok(compiled) => Some(compiled.is_match(haystack)),
        Err(_) => None,
    }
}

/// A line of white space only; the empty line is one.
pub open spec fn is_blank(line: Seq<char>) -> bool {
    forall|i: int| 0 <= i < line.len() ==> is_white_space(#[trigger] line[i])
}

/// A line that begins with `#`.
pub open spec fn is_comment(line: Seq<char>) -> bool {
    line.len() > 0 && line[0] == '#'
}

/// A line that states a rule: neither a comment nor blank.
pub open spec fn is_rule(line: Seq<char>) -> bool {
    !is_comment(line) && !is_blank(line)
}

/// The lines that state rules, in their order.
pub open spec fn rules_of(lines: Seq<Seq<char>>) -> Seq<Seq<char>> {
    lines.filter(|line: Seq<char>| is_rule(line))
}

/// Some rule matches somewhere in the path.
pub open spec fn matches_any(rules: Seq<Seq<char>>, path: Seq<char>) -> bool {
    exists|i: int| 0 <= i < rules.len() && regex_finds(#[trigger] rules[i], path)
}

/// The paths that no rule matches, in their order.
pub open spec fn unmatched(files: Seq<Seq<char>>, rules: Seq<Seq<char>>) -> Seq<Seq<char>> {
    files.filter(|path: Seq<char>| !matches_any(rules, path))
}

/// The files at the positions whose flag is not set; a position without a
/// flag counts as not set.
pub open spec fn unflagged(files: Seq<Seq<char>>, flags: Seq<bool>) -> Seq<Seq<char>>
    decreases files.len(),
{
    if files.len() == 0 {
        Seq::empty()
    } else {
        let earlier = unflagged(files.drop_last(), flags);
        if files.len() - 1 < flags.len() && flags[files.len() - 1] {
            earlier
        } else {
            earlier.push(files.last())
        }
    }
}

/// What a run of searches settles, where `answers` holds the answer of each
/// search in turn and `None` stands for a rule that could not be compiled:
/// the first answer that is not a plain no; a no where every answer is one.
pub open spec fn verdict(answers: Seq<Option<bool>>) -> Option<bool>
    decreases answers.len(),
{
    if answers.len() == 0 {
        Some(false)
    } else if answers[0] == Some(false) {
        verdict(answers.drop_first())
    } else {
        answers[0]
    }
}

/// The rules of an ignore file. A rule is a regular expression; a file is
/// ignored where some rule matches anywhere in its path.
#[derive(Debug, PartialEq)]
pub struct DockerIgnore {
    pub rules: Vec<String>,
}

fn blank(line: &str) -> (yes: bool)
    ensures
        yes == is_blank(line@),
{
    let n = line.unicode_len();
    let mut i: usize = 0;
    while i < n
        invariant
            n == line@.len(),
            0 <= i <= n,
            forall|j: int| 0 <= j < i ==> is_white_space(#[trigger] line@[j]),
        decreases n - i,
    {
        if !char_is_whitespace(line.get_char(i)) {
            return false;
        }
        i = i + 1;
    }
    true
}

fn states_rule(line: &str) -> (yes: bool)
    ensures
        yes == is_rule(line@),
{
    if line.unicode_len() > 0 && line.get_char(0) == '#' {
        return false;
    }
    !blank(line)
}

/// Settles whether a file is to be removed, given what the search with each
/// rule answered, in the order of the rules: yes as soon as a rule matches,
/// no answer as soon as a rule could not be compiled, and no where every
/// rule was compiled and none matches.
pub fn first_verdict(answers: &Vec<Option<bool>>) -> (settled: Option<bool>)
    ensures
        settled == verdict(answers@),
{
    let mut i: usize = 0;
    proof {
        assert(answers@.skip(0) == answers@);
    }
    while i < answers.len()
        invariant
            0 <= i <= answers@.len(),
            verdict(answers@) == verdict(answers@.skip(i as int)),
        decreases answers@.len() - i,
    {
        proof {
            assert(answers@.skip(i as int)[0] == answers@[i as int]);
            assert(answers@.skip(i as int).drop_first() == answers@.skip(i + 1));
        }
        match answers[i] {
            Some(false) => {},
            other => {
                return other;
            },
        }
        i = i + 1;
    }
    Some(false)
}

/// Keeps the files whose flag is not set, in their order.
pub fn keep_unflagged(files: &Vec<String>, flags: &Vec<bool>) -> (kept: Vec<String>)
    ensures
        kept.deep_view() == unflagged(files.deep_view(), flags@),
{
    let ghost all = files.deep_view();
    let mut kept: Vec<String> = Vec::new();
    let mut i: usize = 0;
    proof {
        assert(all.take(0) == Seq::<Seq<char>>::empty());
        assert(kept.deep_view() == Seq::<Seq<char>>::empty());
    }
    while i < files.len()
        invariant
            0 <= i <= files@.len(),
            all == files.deep_view(),
            kept.deep_view() == unflagged(all.take(i as int), flags@),
        decreases files@.len() - i,
    {
        let ghost before = kept.deep_view();
        proof {
            assert(all.take(i + 1).drop_last() == all.take(i as int));
            assert(all.take(i + 1).last() == files@[i as int]@);
        }
        if !(i < flags.len() && flags[i]) {
            kept.push(files[i].clone());
            assert(kept.deep_view() == before.push(files@[i as int]@));
        }
        i = i + 1;
    }
    proof {
        assert(all.take(i as int) == all);
    }
    kept
}

impl DockerIgnore {
    /// Reads the rules out of the text of an ignore file: one rule on each
    /// line, comments and blank lines apart.
    pub fn new(contents: &str) -> (ignore: DockerIgnore)
        ensures
            ignore.rules.deep_view() == rules_of(split(contents@, '\n')),
    {
        let lines = split_str(contents, '\n');
        let ghost texts = split(contents@, '\n');
        let ghost keep = |line: Seq<char>| is_rule(line);
        let mut rules: Vec<String> = Vec::new();
        let mut i: usize = 0;
        proof {
            assert(texts.take(0) == Seq::<Seq<char>>::empty());
            lemma_filter_push(Seq::<Seq<char>>::empty(), Seq::<char>::empty(), keep);
            assert(rules.deep_view() == Seq::<Seq<char>>::empty());
        }
        while i < lines.len()
            invariant
                0 <= i <= lines@.len(),
                lines@.len() == texts.len(),
                forall|j: int| 0 <= j < lines@.len() ==> lines@[j]@ == texts[j],
                keep == (|line: Seq<char>| is_rule(line)),
                rules.deep_view() == texts.take(i as int).filter(keep),
            decreases lines@.len() - i,
        {
            let ghost before = rules.deep_view();
            proof {
                assert(texts.take(i + 1) == texts.take(i as int).push(texts[i as int]));
                lemma_filter_push(texts.take(i as int), texts[i as int], keep);
            }
            if states_rule(lines[i].as_str()) {
                rules.push(lines[i].clone());
                assert(rules.deep_view() == before.push(texts[i as int]));
            }
            i = i + 1;
        }
        proof {
            assert(texts.take(i as int) == texts);
        }
        DockerIgnore { rules }
    }

    /// Drops the comments and the blank lines.
    pub fn remove_comments<'a>(lines: Vec<&'a str>) -> (kept: Vec<&'a str>)
        ensures
            kept.deep_view() == rules_of(lines.deep_view()),
    {
        let ghost texts = lines.deep_view();
        let ghost keep = |line: Seq<char>| is_rule(line);
        let mut kept: Vec<&'a str> = Vec::new();
        let mut i: usize = 0;
        proof {
            assert(texts.take(0) == Seq::<Seq<char>>::empty());
            lemma_filter_push(Seq::<Seq<char>>::empty(), Seq::<char>::empty(), keep);
            assert(kept.deep_view() == Seq::<Seq<char>>::empty());
        }
        while i < lines.len()
            invariant
                0 <= i <= lines@.len(),
                texts == lines.deep_view(),
                keep == (|line: Seq<char>| is_rule(line)),
                kept.deep_view() == texts.take(i as int).filter(keep),
            decreases lines@.len() - i,
        {
            let ghost before = kept.deep_view();
            let line: &'a str = lines[i];
            proof {
                assert(texts[i as int] == line@);
                assert(texts.take(i + 1) == texts.take(i as int).push(texts[i as int]));
                lemma_filter_push(texts.take(i as int), texts[i as int], keep);
            }
            if states_rule(line) {
                kept.push(line);
                assert(kept.deep_view() == before.push(line@));
            }
            i = i + 1;
        }
        proof {
            assert(texts.take(i as int) == texts);
        }
        kept
    }

    /// Whether some rule matches `file`. The rules are tried in their order
    /// and the first match settles it. `None` means that a rule that had to
    /// be tried could not be compiled; with no rules there is nothing to
    /// compile, and the answer is `Some(false)`.
    pub fn should_remove_file(&self, file: &str) -> (answer: Option<bool>)
        ensures
            answer matches Some(yes) ==> yes == matches_any(self.rules.deep_view(), file@),
            self.rules@.len() == 0 ==> answer == Some(false),
    {
        let ghost rules = self.rules.deep_view();
        let mut answers: Vec<Option<bool>> = Vec::new();
        let mut i: usize = 0;
        while i < self.rules.len()
            invariant
                0 <= i <= self.rules@.len(),
                rules == self.rules.deep_view(),
                answers@.len() == i,
                forall|j: int| 0 <= j < i ==> answers@[j] == Some(false),
                forall|j: int| 0 <= j < i ==> !regex_finds(#[trigger] rules[j], file@),
            decreases self.rules@.len() - i,
        {
            assert(rules[i as int] == self.rules@[i as int]@);
            let answer = search(self.rules[i].as_str(), file);
            let ghost before = answers@;
            answers.push(answer);
            match answer {
                Some(false) => {},
                _ => {
                    proof {
                        lemma_verdict_after_noes(before, answer);
                    }
                    return first_verdict(&answers);
                },
            }
            i = i + 1;
        }
        proof {
            lemma_verdict_all_noes(answers@);
        }
        first_verdict(&answers)
    }

    /// The files that no rule matches, in their order. `None` means that a
    /// rule that had to be tried could not be compiled; with no rules, or
    /// with no files, that cannot happen.
    pub fn filter_files(&self, files: &Vec<String>) -> (answer: Option<Vec<String>>)
        ensures
            answer matches Some(kept) ==> kept.deep_view() == unmatched(
                files.deep_view(),
                self.rules.deep_view(),
            ),
            self.rules@.len() == 0 || files@.len() == 0 ==> answer is Some,
    {
        let ghost rules = self.rules.deep_view();
        let ghost all = files.deep_view();
        let mut flags: Vec<bool> = Vec::new();
        let mut i: usize = 0;
        while i < files.len()
            invariant
                0 <= i <= files@.len(),
                rules == self.rules.deep_view(),
                all == files.deep_view(),
                flags@.len() == i,
                forall|j: int| 0 <= j < i ==> flags@[j] == matches_any(rules, #[trigger] all[j]),
            decreases files@.len() - i,
        {
            assert(all[i as int] == files@[i as int]@);
            match self.should_remove_file(files[i].as_str()) {
                None => {
                    return None;
                },
                Some(flag) => {
                    flags.push(flag);
                },
            }
            i = i + 1;
        }
        let kept = keep_unflagged(files, &flags);
        proof {
            lemma_unflagged_is_filter(all, flags@, rules, all.len() as int);
            assert(all.take(all.len() as int) == all);
        }
        Some(kept)
    }
}

/// A run of plain noes settles on no.
pub proof fn lemma_verdict_all_noes(answers: Seq<Option<bool>>)
    requires
        forall|j: int| 0 <= j < answers.len() ==> answers[j] == Some(false),
    ensures
        verdict(answers) == Some(false),
    decreases answers.len(),
{
    if answers.len() > 0 {
        lemma_verdict_all_noes(answers.drop_first());
    }
}

/// A run of plain noes followed by another answer settles on that answer.
pub proof fn lemma_verdict_after_noes(noes: Seq<Option<bool>>, answer: Option<bool>)
    requires
        forall|j: int| 0 <= j < noes.len() ==> noes[j] == Some(false),
    ensures
        verdict(noes.push(answer)) == answer,
    decreases noes.len(),
{
    let all = noes.push(answer);
    if noes.len() == 0 {
        assert(all[0] == answer);
        if answer == Some(false) {
            assert(all.drop_first().len() == 0);
            assert(verdict(all.drop_first()) == Some(false));
        }
    } else {
        assert(all[0] == noes[0]);
        assert(all.drop_first() == noes.drop_first().push(answer));
        lemma_verdict_after_noes(noes.drop_first(), answer);
        assert(verdict(all) == verdict(all.drop_first()));
    }
}

/// Keeping the files whose flag is not set is filtering by the rules, where
/// each flag tells whether some rule matches its file.
pub proof fn lemma_unflagged_is_filter(
    files: Seq<Seq<char>>,
    flags: Seq<bool>,
    rules: Seq<Seq<char>>,
    n: int,
)
    requires
        0 <= n <= files.len(),
        flags.len() == files.len(),
        forall|j: int| 0 <= j < files.len() ==> flags[j] == matches_any(rules, #[trigger] files[j]),
    ensures
        unflagged(files.take(n), flags) == unmatched(files.take(n), rules),
    decreases n,
{
    let keep = |path: Seq<char>| !matches_any(rules, path);
    if n == 0 {
        assert(files.take(0) == Seq::<Seq<char>>::empty());
        lemma_filter_push(Seq::<Seq<char>>::empty(), Seq::<char>::empty(), keep);
    } else {
        lemma_unflagged_is_filter(files, flags, rules, n - 1);
        assert(files.take(n).drop_last() == files.take(n - 1));
        assert(files.take(n) == files.take(n - 1).push(files[n - 1]));
        lemma_filter_push(files.take(n - 1), files[n - 1], keep);
    }
}

} // verus!
