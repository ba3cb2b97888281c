use vstd::prelude::*;
use crate::supervisor::PARENT_PREFIX;
use crate::text::{ends_with, ends_with_seq};

verus! {

/// The artifact's name where it lies in the working directory.
pub const DEFAULT_ARTIFACT: &'static str = "server.jar";

/// The suffix of an artifact's file name, in lower case.
pub const ARTIFACT_SUFFIX: &'static str = ".jar";

/// What `str::to_lowercase` gives for `s`.
pub uninterp spec fn lower_of(s: Seq<char>) -> Seq<char>;

/// Relies on `str::to_lowercase`: the result depends on the characters alone.
#[verifier::external_body]
fn lowercase(s: &str) -> (r: String)
    ensures
        r@ == lower_of(s@),
{
    s.to_lowercase()
}

/// Whether a file name, in lower case, names an artifact.
pub open spec fn is_artifact_name(lowered: Seq<char>) -> bool {
    ends_with_seq(lowered, ARTIFACT_SUFFIX@)
}

/// The index of the first name among `lowered`, names already in lower case,
/// that names an artifact.
pub fn first_artifact_in(lowered: &Vec<String>) -> (r: Option<usize>)
    ensures
        match r {
            Some(i) => {
                &&& i < lowered@.len()
                &&& is_artifact_name(lowered@[i as int]@)
                &&& forall|j: int| 0 <= j < i ==> !is_artifact_name(#[trigger] lowered@[j]@)
            },
            None => forall|j: int| 0 <= j < lowered@.len() ==> !is_artifact_name(#[trigger] lowered@[j]@),
        },
{
    let mut i: usize = 0;
    while i < lowered.len()
        invariant
            i <= lowered@.len(),
            forall|j: int| 0 <= j < i ==> !is_artifact_name(#[trigger] lowered@[j]@),
        decreases lowered@.len() - i,
    {
        if ends_with(lowered[i].as_str(), ARTIFACT_SUFFIX) {
            return Some(i);
        }
        i += 1;
    }
    None
}

/// The index of the first directory entry whose name, in lower case, ends
/// with the artifact suffix.
pub fn find_artifact(names: &Vec<String>) -> (r: Option<usize>)
    ensures
        match r {
            Some(i) => {
                &&& i < names@.len()
                &&& is_artifact_name(lower_of(names@[i as int]@))
                &&& forall|j: int| 0 <= j < i ==> !is_artifact_name(lower_of(#[trigger] names@[j]@))
            },
            None => forall|j: int| 0 <= j < names@.len() ==> !is_artifact_name(lower_of(#[trigger] names@[j]@)),
        },
{
    let mut lowered: Vec<String> = Vec::new();
    let mut i: usize = 0;
    while i < names.len()
        invariant
            i <= names@.len(),
            lowered@.len() == i,
            forall|j: int| 0 <= j < i ==> #[trigger] lowered@[j]@ == lower_of(names@[j]@),
        decreases names@.len() - i,
    {
        lowered.push(lowercase(names[i].as_str()));
        i += 1;
    }
    let r = first_artifact_in(&lowered);
    proof {
        if r is None {
            assert forall|j: int| 0 <= j < names@.len() implies !is_artifact_name(lower_of(#[trigger] names@[j]@)) by {
                assert(lowered@[j]@ == lower_of(names@[j]@));
            }
        } else {
            let k = r->0 as int;
            assert forall|j: int| 0 <= j < k implies !is_artifact_name(lower_of(#[trigger] names@[j]@)) by {
                assert(lowered@[j]@ == lower_of(names@[j]@));
            }
            assert(lowered@[k]@ == lower_of(names@[k]@));
        }
    }
    r
}

/// Where the artifact is, given whether it lies in the working directory,
/// whether it lies under its default name in the parent directory, and the
/// names of the parent directory's entries: the first of these that holds,
/// as a path relative to the working directory.
pub fn locate_artifact(here: bool, in_parent: bool, parent_names: &Vec<String>) -> (r: Option<String>)
    ensures
        here ==> (r matches Some(p) && p@ == DEFAULT_ARTIFACT@),
        !here && in_parent ==> (r matches Some(p) && p@ == PARENT_PREFIX@ + DEFAULT_ARTIFACT@),
        !here && !in_parent ==> match r {
            Some(p) => exists|i: int| {
                &&& 0 <= i < parent_names@.len()
                &&& p@ == PARENT_PREFIX@ + parent_names@[i]@
                &&& is_artifact_name(lower_of(parent_names@[i]@))
                &&& forall|j: int| 0 <= j < i ==> !is_artifact_name(lower_of(#[trigger] parent_names@[j]@))
            },
            None => forall|j: int| 0 <= j < parent_names@.len() ==> !is_artifact_name(lower_of(#[trigger] parent_names@[j]@)),
        },
{
    if here {
        return Some(String::from_str(DEFAULT_ARTIFACT));
    }
    if in_parent {
        let mut p = String::from_str(PARENT_PREFIX);
        p.append(DEFAULT_ARTIFACT);
        return Some(p);
    }
    match find_artifact(parent_names) {
        Some(i) => {
            let mut p = String::from_str(PARENT_PREFIX);
            p.append(parent_names[i].as_str());
            assert(p@ == PARENT_PREFIX@ + parent_names@[i as int]@);
            Some(p)
        },
        None => None,
    }
}

} // verus!
