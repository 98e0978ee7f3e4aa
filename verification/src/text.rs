//! Text primitives shared by the registry and the tab rules: lower-casing,
//! substring search and copies of owned strings, each stated over `Seq<char>`.

use vstd::prelude::*;
use vstd::string::*;

verus! {

/// The Unicode lower-case form of a text, as `str::to_lowercase` computes it.
pub uninterp spec fn lowercase_of(text: Seq<char>) -> Seq<char>;

/// `needle` stands in `hay` starting at position `at`.
pub open spec fn occurs_at(hay: Seq<char>, needle: Seq<char>, at: int) -> bool {
    &&& 0 <= at
    &&& at + needle.len() <= hay.len()
    &&& hay.subrange(at, at + needle.len()) == needle
}

/// `needle` is a contiguous part of `hay`.
pub open spec fn contains_text(hay: Seq<char>, needle: Seq<char>) -> bool {
    exists|at: int| occurs_at(hay, needle, at)
}

/// `needle` is a part of `hay` once both are lower-cased.
pub open spec fn contains_ignoring_case(hay: Seq<char>, needle: Seq<char>) -> bool {
    contains_text(lowercase_of(hay), lowercase_of(needle))
}

/// The texts held by a sequence of strings.
pub open spec fn texts_of(items: Seq<String>) -> Seq<Seq<char>> {
    Seq::new(items.len(), |i: int| items[i]@)
}

/// The text of an optional string.
pub open spec fn text_of(value: Option<String>) -> Option<Seq<char>> {
    match value {
        Some(s) => Some(s@),
        None => None,
    }
}

/// Calls `str::to_lowercase`. Trusted: the result is the lower-case form of
/// the argument, which is all that is claimed of it.
#[verifier::external_body]
pub(crate) fn to_lowercase(text: &str) -> (lowered: String)
    ensures
        lowered@ == lowercase_of(text@),
{
    text.to_lowercase()
}

/// Calls `str::contains` with a string pattern. Trusted: the result says
/// whether the pattern occurs as a contiguous part of the text.
#[verifier::external_body]
pub(crate) fn contains(hay: &str, needle: &str) -> (found: bool)
    ensures
        found == contains_text(hay@, needle@),
{
    hay.contains(needle)
}

/// The lower-case forms of the texts, one for one.
pub open spec fn lowered(texts: Seq<Seq<char>>) -> Seq<Seq<char>> {
    Seq::new(texts.len(), |i: int| lowercase_of(texts[i]))
}

/// Position `i` is the first one, from `start` on, whose text contains `needle`.
pub open spec fn first_containing_at(
    hays: Seq<Seq<char>>,
    needle: Seq<char>,
    start: int,
    i: int,
) -> bool {
    &&& start <= i < hays.len()
    &&& contains_text(hays[i], needle)
    &&& forall|j: int| start <= j < i ==> !contains_text(#[trigger] hays[j], needle)
}

/// No text from `start` on contains `needle`.
pub open spec fn none_containing(hays: Seq<Seq<char>>, needle: Seq<char>, start: int) -> bool {
    forall|j: int| start <= j < hays.len() ==> !contains_text(#[trigger] hays[j], needle)
}

/// `hay` contains one of the needles.
pub open spec fn contains_one(hay: Seq<char>, needles: Seq<Seq<char>>) -> bool {
    exists|k: int| 0 <= k < needles.len() && contains_text(hay, #[trigger] needles[k])
}

/// Lower-cases each string of a list.
pub fn lowercase_all(items: &Vec<String>) -> (lower: Vec<String>)
    ensures
        texts_of(lower@) == lowered(texts_of(items@)),
{
    let mut lower: Vec<String> = Vec::new();
    let mut i: usize = 0;
    while i < items.len()
        invariant
            i <= items.len(),
            lower.len() == i,
            forall|k: int| 0 <= k < i ==> lower@[k]@ == lowercase_of(items@[k]@),
        decreases items.len() - i,
    {
        lower.push(to_lowercase(items[i].as_str()));
        i = i + 1;
    }
    assert(texts_of(lower@) =~= lowered(texts_of(items@)));
    lower
}

/// Searches a list of texts, from position `start` on, for the first one
/// that contains `needle`. The texts are compared as they are: a caller that
/// wants case ignored hands in lower-case forms.
pub fn first_containing(hays: &Vec<String>, needle: &str, start: usize) -> (found: Option<usize>)
    ensures
        match found {
            Some(i) => first_containing_at(texts_of(hays@), needle@, start as int, i as int),
            None => none_containing(texts_of(hays@), needle@, start as int),
        },
{
    let mut i: usize = start;
    while i < hays.len()
        invariant
            start <= i,
            forall|j: int|
                start <= j < i && j < hays.len() ==> !contains_text(
                    #[trigger] texts_of(hays@)[j],
                    needle@,
                ),
        decreases hays.len() - i,
    {
        if contains(hays[i].as_str(), needle) {
            return Some(i);
        }
        i = i + 1;
    }
    None
}

/// Whether a text contains one of the needles. The texts are compared as
/// they are: a caller that wants case ignored hands in lower-case forms.
pub fn contains_one_of(hay: &str, needles: &Vec<String>) -> (found: bool)
    ensures
        found == contains_one(hay@, texts_of(needles@)),
{
    let mut k: usize = 0;
    while k < needles.len()
        invariant
            k <= needles.len(),
            forall|j: int| 0 <= j < k ==> !contains_text(hay@, #[trigger] texts_of(needles@)[j]),
        decreases needles.len() - k,
    {
        if contains(hay, needles[k].as_str()) {
            assert(contains_text(hay@, texts_of(needles@)[k as int]));
            return true;
        }
        k = k + 1;
    }
    false
}

/// Copies a list of strings, text by text.
pub fn clone_strings(items: &Vec<String>) -> (copy: Vec<String>)
    ensures
        texts_of(copy@) == texts_of(items@),
{
    let mut copy: Vec<String> = Vec::new();
    let mut i: usize = 0;
    while i < items.len()
        invariant
            i <= items.len(),
            copy.len() == i,
            forall|k: int| 0 <= k < i ==> copy@[k]@ == items@[k]@,
        decreases items.len() - i,
    {
        copy.push(items[i].clone());
        i = i + 1;
    }
    copy
}

/// A text contains itself, case ignored.
pub proof fn lemma_contains_itself(text: Seq<char>)
    ensures
        contains_ignoring_case(text, text),
{
    let lower = lowercase_of(text);
    assert(lower.subrange(0, lower.len() as int) =~= lower);
    assert(occurs_at(lower, lower, 0));
}

/// Filtering one element more either appends that element or changes nothing.
pub proof fn lemma_filter_step<A>(s: Seq<A>, keep: spec_fn(A) -> bool, i: int)
    requires
        0 <= i < s.len(),
    ensures
        s.take(i + 1).filter(keep) == if keep(s[i]) {
            s.take(i).filter(keep).push(s[i])
        } else {
            s.take(i).filter(keep)
        },
{
    reveal(Seq::filter);
    assert(s.take(i + 1).drop_last() =~= s.take(i));
}

} // verus!
