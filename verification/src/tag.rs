//! Resource tags and the `Key=Value,Key=Value` notation they are written in.

use crate::text::{split, split_str};
use vstd::prelude::*;
use vstd::string::*;

verus! {

/// A key and a value to attach to every provisioned resource.
#[derive(Clone, Debug, PartialEq)]
pub struct Tag {
    pub key: String,
    pub value: String,
}

/// What a [`Tag`] holds, as plain sequences of characters.
pub struct TagModel {
    pub key: Seq<char>,
    pub value: Seq<char>,
}

impl View for Tag {
    type V = TagModel;

    open spec fn view(&self) -> TagModel {
        TagModel { key: self.key@, value: self.value@ }
    }
}

impl DeepView for Tag {
    type V = TagModel;

    open spec fn deep_view(&self) -> TagModel {
        self@
    }
}

impl Tag {
    pub fn new(key: String, value: String) -> (tag: Tag)
        ensures
            tag@ == (TagModel { key: key@, value: value@ }),
    {
        Tag { key, value }
    }

    /// A copy with the same key and value.
    pub fn duplicate(&self) -> (tag: Tag)
        ensures
            tag@ == self@,
    {
        Tag { key: self.key.clone(), value: self.value.clone() }
    }
}

/// What one piece between commas stands for: a tag, or the complaint about it.
pub open spec fn parse_tag(piece: Seq<char>) -> Result<TagModel, Seq<char>> {
    let parts = split(piece, '=');
    if parts.len() != 2 {
        Err("Tag ("@ + piece + ") must contain Key & Value"@)
    } else if parts[0].len() == 0 {
        Err("Key in tag ("@ + piece + ") must not be empty"@)
    } else if parts[1].len() == 0 {
        Err("Value in tag ("@ + piece + ") must not be empty"@)
    } else {
        Ok(TagModel { key: parts[0], value: parts[1] })
    }
}

/// The tags that a list of pieces stands for, or the complaint about the first
/// piece that is no tag.
pub open spec fn parse_pieces(pieces: Seq<Seq<char>>) -> Result<Seq<TagModel>, Seq<char>>
    decreases pieces.len(),
{
    if pieces.len() == 0 {
        Ok(Seq::empty())
    } else {
        match parse_pieces(pieces.drop_last()) {
            Err(complaint) => Err(complaint),
            Ok(tags) => match parse_tag(pieces.last()) {
                Err(complaint) => Err(complaint),
                Ok(tag) => Ok(tags.push(tag)),
            },
        }
    }
}

/// What a whole tag argument stands for. An empty piece anywhere (a leading,
/// trailing or doubled comma, or the empty string) is refused before any
/// piece is looked into.
pub open spec fn parse_tags(text: Seq<char>) -> Result<Seq<TagModel>, Seq<char>> {
    let pieces = split(text, ',');
    if exists|i: int| 0 <= i < pieces.len() && #[trigger] pieces[i].len() == 0 {
        Err("Tag must not be empty"@)
    } else {
        parse_pieces(pieces)
    }
}

/// The model of a parser's answer.
pub open spec fn answer_model(answer: Result<Vec<Tag>, String>) -> Result<Seq<TagModel>, Seq<char>> {
    match answer {
        Ok(tags) => Ok(tags.deep_view()),
        Err(complaint) => Err(complaint@),
    }
}

fn any_empty(pieces: &Vec<String>) -> (found: bool)
    ensures
        found == exists|i: int| 0 <= i < pieces@.len() && #[trigger] pieces@[i]@.len() == 0,
{
    let mut i: usize = 0;
    while i < pieces.len()
        invariant
            0 <= i <= pieces@.len(),
            forall|j: int| 0 <= j < i ==> #[trigger] pieces@[j]@.len() != 0,
        decreases pieces@.len() - i,
    {
        if pieces[i].as_str().is_empty() {
            return true;
        }
        i = i + 1;
    }
    false
}

fn complaint(before: &str, piece: &str, after: &str) -> (text: String)
    ensures
        text@ == before@ + piece@ + after@,
{
    String::from_str(before).concat(piece).concat(after)
}

/// Reads one `Key=Value` piece.
fn parse_one(piece: &str) -> (answer: Result<Tag, String>)
    ensures
        match answer {
            Ok(tag) => parse_tag(piece@) == Ok::<TagModel, Seq<char>>(tag@),
            Err(text) => parse_tag(piece@) == Err::<TagModel, Seq<char>>(text@),
        },
{
    let mut parts = split_str(piece, '=');
    if parts.len() != 2 {
        return Err(complaint("Tag (", piece, ") must contain Key & Value"));
    }
    if parts[0].as_str().is_empty() {
        return Err(complaint("Key in tag (", piece, ") must not be empty"));
    }
    if parts[1].as_str().is_empty() {
        return Err(complaint("Value in tag (", piece, ") must not be empty"));
    }
    let value = parts.pop().unwrap();
    let key = parts.pop().unwrap();
    Ok(Tag::new(key, value))
}

/// Reads a tag argument such as `Key1=Value1,Key2=Value2`.
pub fn tag_parser(maybe_tag: String) -> (answer: Result<Vec<Tag>, String>)
    ensures
        answer_model(answer) == parse_tags(maybe_tag@),
{
    let pieces = split_str(maybe_tag.as_str(), ',');
    let ghost texts = split(maybe_tag@, ',');
    if any_empty(&pieces) {
        proof {
            let i = choose|i: int| 0 <= i < pieces@.len() && #[trigger] pieces@[i]@.len() == 0;
            assert(texts[i].len() == 0);
        }
        return Err(String::from_str("Tag must not be empty"));
    }
    assert(!exists|i: int| 0 <= i < texts.len() && #[trigger] texts[i].len() == 0) by {
        assert forall|i: int| 0 <= i < texts.len() implies #[trigger] texts[i].len() != 0 by {
            assert(pieces@[i]@.len() != 0);
        }
    }
    let mut result: Vec<Tag> = Vec::new();
    let mut i: usize = 0;
    proof {
        assert(texts.take(0) == Seq::<Seq<char>>::empty());
        assert(result.deep_view() == Seq::<TagModel>::empty());
    }
    while i < pieces.len()
        invariant
            0 <= i <= pieces@.len(),
            pieces@.len() == texts.len(),
            texts == split(maybe_tag@, ','),
            !exists|i: int| 0 <= i < texts.len() && #[trigger] texts[i].len() == 0,
            forall|j: int| 0 <= j < pieces@.len() ==> pieces@[j]@ == texts[j],
            parse_pieces(texts.take(i as int)) == Ok::<Seq<TagModel>, Seq<char>>(result.deep_view()),
        decreases pieces@.len() - i,
    {
        let ghost before = result.deep_view();
        proof {
            assert(texts.take(i + 1).drop_last() == texts.take(i as int));
            assert(texts.take(i + 1).last() == texts[i as int]);
        }
        match parse_one(pieces[i].as_str()) {
            Ok(tag) => {
                result.push(tag);
                proof {
                    assert(result.deep_view() == before.push(tag@));
                }
            },
            Err(text) => {
                proof {
                    assert(parse_tag(texts[i as int]) == Err::<TagModel, Seq<char>>(text@));
                    assert(parse_pieces(texts.take(i + 1)) == Err::<Seq<TagModel>, Seq<char>>(
                        text@,
                    ));
                    lemma_failure_stays(texts, i + 1);
                }
                return Err(text);
            },
        }
        i = i + 1;
    }
    proof {
        assert(texts.take(i as int) == texts);
    }
    Ok(result)
}

/// Once a prefix of the pieces has been refused, the whole list is refused
/// with the same complaint.
pub proof fn lemma_failure_stays(pieces: Seq<Seq<char>>, n: int)
    requires
        0 <= n <= pieces.len(),
        parse_pieces(pieces.take(n)) is Err,
    ensures
        parse_pieces(pieces) == parse_pieces(pieces.take(n)),
    decreases pieces.len() - n,
{
    if n < pieces.len() {
        assert(pieces.take(n + 1).drop_last() == pieces.take(n));
        lemma_failure_stays(pieces, n + 1);
    } else {
        assert(pieces.take(n) == pieces);
    }
}

/// Whether a tag argument can be read: `Ok` exactly where [`tag_parser`]
/// gives tags, and its complaint otherwise.
pub fn tags_validator(maybe_tag: String) -> (answer: Result<(), String>)
    ensures
        match answer {
            Ok(_) => parse_tags(maybe_tag@) is Ok,
            Err(text) => parse_tags(maybe_tag@) == Err::<Seq<TagModel>, Seq<char>>(text@),
        },
{
    match tag_parser(maybe_tag) {
        Ok(_) => Ok(()),
        Err(text) => Err(text),
    }
}

} // verus!
