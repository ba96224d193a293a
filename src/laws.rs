//! Properties that hold of the registry, the ranking and the pipeline as a whole.

use vstd::prelude::*;

use crate::error::{validated, Error, ExtractErrorKind, Result};
use crate::factory::{chosen, extracted, leader, rank_of, tag_points, EntryView};
use crate::models::{Submission, SubmissionView};
use crate::text::{contains, fold};

verus! {

/// The number of `tags` that occur in the folded url `u`.
pub open spec fn matching_tags(tags: Seq<Seq<char>>, u: Seq<char>) -> nat
    decreases tags.len(),
{
    if tags.len() == 0 {
        0
    } else {
        matching_tags(tags.drop_last(), u) + if contains(u, fold(tags.last())) {
            1nat
        } else {
            0nat
        }
    }
}

/// The url names the entry: its name or one of its tags occurs in it, ASCII letters folded.
pub open spec fn mentions(entry: EntryView, url: Seq<char>) -> bool {
    contains(fold(url), fold(entry.name)) || exists|k: int|
        0 <= k < entry.tags.len() && contains(fold(url), fold(#[trigger] entry.tags[k]))
}

proof fn lemma_tag_points(tags: Seq<Seq<char>>, u: Seq<char>)
    ensures
        tag_points(tags, u) == 10 * matching_tags(tags, u),
        tag_points(tags, u) > 0 <==> exists|k: int| 0 <= k < tags.len() && contains(u, fold(#[trigger] tags[k])),
    decreases tags.len(),
{
    if tags.len() > 0 {
        let init = tags.drop_last();
        lemma_tag_points(init, u);
        if tag_points(init, u) > 0 {
            let k = choose|k: int| 0 <= k < init.len() && contains(u, fold(#[trigger] init[k]));
            assert(tags[k] == init[k]);
        }
        if exists|k: int| 0 <= k < tags.len() && contains(u, fold(#[trigger] tags[k])) {
            let k = choose|k: int| 0 <= k < tags.len() && contains(u, fold(#[trigger] tags[k]));
            if k < tags.len() - 1 {
                assert(init[k] == tags[k]);
            }
        }
    }
}

/// The rank is ten points per tag that occurs in the url plus twenty when the name occurs:
/// adding a tag that occurs raises it by exactly ten, adding one that does not leaves it.
pub proof fn lemma_rank_sums(entry: EntryView, tag: Seq<char>, url: Seq<char>)
    ensures
        rank_of(entry, url) == 10 * matching_tags(entry.tags, fold(url)) + if contains(
            fold(url),
            fold(entry.name),
        ) {
            20int
        } else {
            0int
        },
        rank_of(EntryView { tags: entry.tags.push(tag), ..entry }, url) == rank_of(entry, url)
            + if contains(fold(url), fold(tag)) {
            10int
        } else {
            0int
        },
{
    lemma_tag_points(entry.tags, fold(url));
    assert(entry.tags.push(tag).drop_last() =~= entry.tags);
}

/// An entry ranks above zero exactly when the url mentions it.
pub proof fn lemma_rank_positive(entry: EntryView, url: Seq<char>)
    ensures
        rank_of(entry, url) > 0 <==> mentions(entry, url),
{
    lemma_tag_points(entry.tags, fold(url));
}

proof fn lemma_leader(entries: Seq<EntryView>, url: Seq<char>, i: int)
    requires
        1 <= i <= entries.len(),
    ensures
        0 <= leader(entries, url, i) < i,
        forall|k: int| 0 <= k < i ==> rank_of(#[trigger] entries[k], url) <= rank_of(entries[leader(entries, url, i)], url),
        forall|k: int| 0 <= k < leader(entries, url, i) ==> rank_of(#[trigger] entries[k], url) < rank_of(entries[leader(entries, url, i)], url),
    decreases i,
{
    if i > 1 {
        lemma_leader(entries, url, i - 1);
    }
}

/// The chosen entry has the highest rank, strictly higher than every entry registered before it.
pub proof fn lemma_chosen_is_first_best(entries: Seq<EntryView>, url: Seq<char>)
    ensures
        chosen(entries, url) matches Some(i) ==> {
            &&& 0 <= i < entries.len()
            &&& rank_of(entries[i], url) > 0
            &&& forall|k: int| 0 <= k < entries.len() ==> rank_of(#[trigger] entries[k], url) <= rank_of(entries[i], url)
            &&& forall|k: int| 0 <= k < i ==> rank_of(#[trigger] entries[k], url) < rank_of(entries[i], url)
        },
        chosen(entries, url) is None ==> forall|k: int| 0 <= k < entries.len() ==> rank_of(#[trigger] entries[k], url) == 0,
{
    if entries.len() > 0 {
        lemma_leader(entries, url, entries.len() as int);
    }
}

/// An extractor is chosen for a url exactly when the url mentions a registered entry; when it
/// mentions one entry only, that entry is chosen.
pub proof fn lemma_mention_selects(entries: Seq<EntryView>, url: Seq<char>)
    ensures
        chosen(entries, url) is Some <==> exists|k: int| 0 <= k < entries.len() && mentions(#[trigger] entries[k], url),
        forall|i: int|
            0 <= i < entries.len() && mentions(#[trigger] entries[i], url) && (forall|j: int|
                0 <= j < entries.len() && j != i ==> !mentions(#[trigger] entries[j], url)) ==> chosen(entries, url) == Some(i),
{
    lemma_chosen_is_first_best(entries, url);
    assert forall|k: int| 0 <= k < entries.len() implies (rank_of(#[trigger] entries[k], url) > 0 <==> mentions(entries[k], url)) by {
        lemma_rank_positive(entries[k], url);
    }
    if exists|k: int| 0 <= k < entries.len() && mentions(#[trigger] entries[k], url) {
        let k = choose|k: int| 0 <= k < entries.len() && mentions(#[trigger] entries[k], url);
        assert(rank_of(entries[k], url) > 0);
    }
}

/// Two results tell the same: equal records, or the same error with equal attachments.
pub open spec fn same_outcome(a: Result<Submission>, b: Result<Submission>) -> bool {
    match (a, b) {
        (Ok(x), Ok(y)) => x@ == y@,
        (Err(Error::NoExtractor(u)), Err(Error::NoExtractor(v))) => u@ == v@,
        (Err(Error::Extract(e)), Err(Error::Extract(f))) => {
            &&& match (e.kind, f.kind) {
                (ExtractErrorKind::EmptyContent, ExtractErrorKind::EmptyContent) => true,
                (ExtractErrorKind::MissingField(m), ExtractErrorKind::MissingField(n)) => m@ == n@,
                _ => false,
            }
            &&& match (e.partial, f.partial) {
                (Some(p), Some(q)) => p@ == q@,
                (None, None) => true,
                _ => false,
            }
        },
        _ => false,
    }
}

/// Extraction keeps no state: two calls on the same url and markup tell the same.
pub proof fn lemma_extract_deterministic(
    url: Seq<char>,
    content: Seq<char>,
    a: Result<Submission>,
    b: Result<Submission>,
)
    requires
        extracted(url, content, a),
        extracted(url, content, b),
    ensures
        same_outcome(a, b),
{
}

/// The required fields are checked in the order `pid`, `rid`, `code`: a record without a
/// problem id fails on it whatever else it lacks, and the failure carries the whole record.
pub proof fn lemma_missing_pid_first(sub: SubmissionView, r: Result<Submission>)
    requires
        validated(sub, r),
        sub.pid.len() == 0,
    ensures
        r matches Err(Error::Extract(e)) && (e.kind matches ExtractErrorKind::MissingField(f) && f@ == "pid"@) && (e.partial matches Some(p) && p@ == sub),
{
}

} // verus!
