//! Choosing the machine image: the newest of the candidates that the
//! provider lists, and none at all if one of them is malformed.

use crate::bootstrap::BootstrapErrors;
use crate::bootstrap::BootstrapErrorsModel;
use chrono::DateTime;
use chrono::FixedOffset;
use std::str::FromStr;
use vstd::prelude::*;
use vstd::string::*;

verus! {

/// A machine image as the provider lists it. Either field may be missing.
#[derive(Debug, PartialEq)]
pub struct AmiCandidate {
    pub image_id: Option<String>,
    pub creation_date: Option<String>,
}

/// What an [`AmiCandidate`] holds.
pub struct AmiCandidateModel {
    pub image_id: Option<Seq<char>>,
    pub creation_date: Option<Seq<char>>,
}

impl View for AmiCandidate {
    type V = AmiCandidateModel;

    open spec fn view(&self) -> AmiCandidateModel {
        AmiCandidateModel {
            image_id: self.image_id.deep_view(),
            creation_date: self.creation_date.deep_view(),
        }
    }
}

impl DeepView for AmiCandidate {
    type V = AmiCandidateModel;

    open spec fn deep_view(&self) -> AmiCandidateModel {
        self@
    }
}

/// The moment that a creation date denotes, as `chrono` reads it: the
/// seconds since the epoch and the nanoseconds beyond them, or `None` where
/// the text is no date and time with an offset.
pub uninterp spec fn parsed_instant(text: Seq<char>) -> Option<(i64, u32)>;

/// Calls `chrono`'s `DateTime::<FixedOffset>::from_str`, which reads a relaxed
/// form of RFC 3339, and hands back the moment as `timestamp()` and
/// `timestamp_subsec_nanos()` give it. Two moments compare as these pairs do.
/// Nothing is proved of the parser: its answer is only given a name.
#[verifier::external_body]
fn parse_instant(text: &str) -> (instant: Option<(i64, u32)>)
    ensures
        instant == parsed_instant(text@),
{
    match DateTime::<FixedOffset>::from_str(text) {
        Ok(moment) => Some((moment.timestamp(), moment.timestamp_subsec_nanos())),
        Err(_) => None,
    }
}

/// `a` is a later moment than `b`.
pub open spec fn later(a: (i64, u32), b: (i64, u32)) -> bool {
    a.0 > b.0 || (a.0 == b.0 && a.1 > b.1)
}

/// `at` points at the newest moment: none is later, and of several that are
/// equally late it is the first.
pub open spec fn is_newest(moments: Seq<(i64, u32)>, at: int) -> bool {
    &&& 0 <= at < moments.len()
    &&& forall|j: int| 0 <= j < moments.len() ==> !later(#[trigger] moments[j], moments[at])
    &&& forall|j: int| 0 <= j < at ==> later(moments[at], #[trigger] moments[j])
}

/// The position of the newest moment, the first of them where several are
/// equally late; 0 for an empty sequence.
pub open spec fn newest_index(moments: Seq<(i64, u32)>) -> int
    decreases moments.len(),
{
    if moments.len() <= 1 {
        0
    } else {
        let before = newest_index(moments.drop_last());
        if later(moments.last(), moments[before]) {
            moments.len() - 1
        } else {
            before
        }
    }
}

/// `newest_index` points at the newest moment, and nothing else does.
pub proof fn lemma_newest_index(moments: Seq<(i64, u32)>)
    requires
        moments.len() > 0,
    ensures
        is_newest(moments, newest_index(moments)),
        forall|at: int| is_newest(moments, at) ==> at == newest_index(moments),
    decreases moments.len(),
{
    if moments.len() > 1 {
        let shorter = moments.drop_last();
        lemma_newest_index(shorter);
        let before = newest_index(shorter);
        let k = newest_index(moments);
        assert(shorter[before] == moments[before]);
        assert forall|j: int| 0 <= j < moments.len() implies !later(#[trigger] moments[j], moments[k]) by {
            if j < shorter.len() {
                assert(shorter[j] == moments[j]);
            }
        }
        assert forall|j: int| 0 <= j < k implies later(moments[k], #[trigger] moments[j]) by {
            assert(shorter[j] == moments[j]);
        }
    }
    assert forall|at: int| is_newest(moments, at) implies at == newest_index(moments) by {
        let k = newest_index(moments);
        if at < k {
            assert(later(moments[k], moments[at]));
        } else if k < at {
            assert(later(moments[at], moments[k]));
        }
    }
}

fn is_later(a: (i64, u32), b: (i64, u32)) -> (yes: bool)
    ensures
        yes == later(a, b),
{
    a.0 > b.0 || (a.0 == b.0 && a.1 > b.1)
}

/// Finds the newest of the moments: `None` for an empty list, else the
/// position of the latest one, the first of them where several are equally
/// late.
pub fn newest(moments: &Vec<(i64, u32)>) -> (found: Option<usize>)
    ensures
        found is None <==> moments@.len() == 0,
        found matches Some(at) ==> is_newest(moments@, at as int) && at == newest_index(moments@),
{
    if moments.len() == 0 {
        return None;
    }
    let mut best: usize = 0;
    let mut i: usize = 1;
    assert(moments@.take(1).len() == 1);
    while i < moments.len()
        invariant
            1 <= i <= moments@.len(),
            best == newest_index(moments@.take(i as int)),
            0 <= best < i,
        decreases moments@.len() - i,
    {
        proof {
            assert(moments@.take(i + 1).drop_last() == moments@.take(i as int));
            assert(moments@.take(i + 1).last() == moments@[i as int]);
            assert(moments@.take(i + 1)[best as int] == moments@[best as int]);
        }
        if is_later(moments[i], moments[best]) {
            best = i;
        }
        i = i + 1;
    }
    proof {
        assert(moments@.take(i as int) == moments@);
        lemma_newest_index(moments@);
    }
    Some(best)
}

/// The moment at which a candidate was made, where its date is present and
/// can be read.
pub open spec fn instant_of(candidate: AmiCandidateModel) -> Option<(i64, u32)> {
    match candidate.creation_date {
        Some(text) => parsed_instant(text),
        None => None,
    }
}

/// A candidate with an id and with a creation date that can be read.
pub open spec fn well_formed(candidate: AmiCandidateModel) -> bool {
    candidate.image_id is Some && instant_of(candidate) is Some
}

/// The moments of a list of candidates, in the same order.
pub open spec fn instants(candidates: Seq<AmiCandidateModel>) -> Seq<(i64, u32)> {
    candidates.map_values(|candidate: AmiCandidateModel| instant_of(candidate).unwrap())
}

/// The image to use: the id of the newest candidate, the first of them in
/// the list where several are equally new. There is none where the list is
/// empty or any candidate in it is malformed.
pub open spec fn resolve(candidates: Seq<AmiCandidateModel>) -> Option<Seq<char>> {
    if candidates.len() > 0 && (forall|i: int|
        0 <= i < candidates.len() ==> well_formed(#[trigger] candidates[i])) {
        candidates[newest_index(instants(candidates))].image_id
    } else {
        None
    }
}

/// Picks the machine image from the provider's list.
///
/// Fails with `FailedFindAmi`, whatever else the list holds, where the list
/// is empty or one candidate lacks its id or a readable creation date.
/// Otherwise the id returned is that of a candidate than which none is newer,
/// the first such in the list.
pub fn get_amazon_linux_2_ami(images: Vec<AmiCandidate>) -> (answer: Result<String, BootstrapErrors>)
    ensures
        match answer {
            Ok(id) => {
                &&& resolve(images.deep_view()) == Some(id@)
                &&& exists|at: int|
                    is_newest(instants(images.deep_view()), at) && (#[trigger] images.deep_view()[at]).image_id
                        == Some(id@)
            },
            Err(error) => {
                &&& error@ == BootstrapErrorsModel::FailedFindAmi
                &&& resolve(images.deep_view()) is None
            },
        },
{
    let ghost candidates = images.deep_view();
    let mut moments: Vec<(i64, u32)> = Vec::new();
    let mut i: usize = 0;
    while i < images.len()
        invariant
            0 <= i <= images@.len(),
            candidates == images.deep_view(),
            moments@.len() == i,
            forall|j: int| 0 <= j < i ==> well_formed(#[trigger] candidates[j]),
            forall|j: int| 0 <= j < i ==> Some(#[trigger] moments@[j]) == instant_of(candidates[j]),
        decreases images@.len() - i,
    {
        let image = &images[i];
        assert(candidates[i as int] == image@);
        if image.image_id.is_none() {
            assert(!well_formed(candidates[i as int]));
            return Err(BootstrapErrors::FailedFindAmi);
        }
        match &image.creation_date {
            None => {
                assert(!well_formed(candidates[i as int]));
                return Err(BootstrapErrors::FailedFindAmi);
            },
            Some(text) => match parse_instant(text.as_str()) {
                None => {
                    assert(!well_formed(candidates[i as int]));
                    return Err(BootstrapErrors::FailedFindAmi);
                },
                Some(moment) => {
                    moments.push(moment);
                },
            },
        }
        i = i + 1;
    }
    assert(moments@ == instants(candidates));
    match newest(&moments) {
        None => Err(BootstrapErrors::FailedFindAmi),
        Some(at) => {
            assert(well_formed(candidates[at as int]));
            match &images[at].image_id {
                Some(id) => Ok(id.clone()),
                None => Err(BootstrapErrors::FailedFindAmi),
            }
        },
    }
}

} // verus!
