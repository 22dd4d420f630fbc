//! Branch and tag enumeration: tag names are peeled of their namespace
//! prefix, each tag links either to its annotated detail page or straight to
//! the commit it marks, and the list is ordered newest first by the
//! signature's timestamp.
use crate::model::Ident;
use crate::paths;
use vstd::multiset::Multiset;
use vstd::prelude::*;

verus! {

/// One tag, ready for a listing or a feed: the link target below the
/// repository, the bare name, the signature that dates it, and the annotated
/// tag's message (empty for a lightweight tag).
pub struct TagEntry {
    pub link: String,
    pub name: String,
    pub tagger: Ident,
    pub message: String,
}

/// Whether `a` may stand before `b` newest-first: ordered by seconds, ties
/// broken by the recorded offset, as the store's own time order does.
pub open spec fn tag_ge(a: TagEntry, b: TagEntry) -> bool {
    a.tagger.when_seconds > b.tagger.when_seconds || (a.tagger.when_seconds
        == b.tagger.when_seconds && a.tagger.when_offset_minutes >= b.tagger.when_offset_minutes)
}

/// The bare tag name: the reference name with the `refs/tags/` namespace
/// peeled off.
pub fn tag_short_name(refname: &str) -> (r: String)
    requires
        refname@.len() >= 10,
    ensures
        r@ == refname@.skip(10),
{
    paths::skip_chars(refname, 10)
}

/// The link target of a tag below its repository: the tag detail page for an
/// annotated tag, the commit page for a lightweight one.
pub fn tag_link(name: &str, annotated: bool) -> (r: String)
    ensures
        annotated ==> r@ == "refs/"@ + name@,
        !annotated ==> r@ == "commit/"@ + name@,
{
    let mut out = if annotated {
        "refs/".to_owned()
    } else {
        "commit/".to_owned()
    };
    out.append(name);
    out
}

fn max_tag_index(work: &Vec<TagEntry>) -> (m: usize)
    requires
        work@.len() > 0,
    ensures
        m < work@.len(),
        forall|j: int| 0 <= j < work@.len() ==> tag_ge(work@[m as int], #[trigger] work@[j]),
{
    let n = work.len();
    let mut best: usize = 0;
    let mut i: usize = 1;
    while i < n
        invariant
            0 < i <= n,
            best < i,
            n == work@.len(),
            forall|j: int| 0 <= j < i ==> tag_ge(work@[best as int], #[trigger] work@[j]),
        decreases n - i,
    {
        let better = work[i].tagger.when_seconds > work[best].tagger.when_seconds || (
        work[i].tagger.when_seconds == work[best].tagger.when_seconds
            && work[i].tagger.when_offset_minutes >= work[best].tagger.when_offset_minutes);
        if better {
            best = i;
        }
        i = i + 1;
    }
    best
}

/// Orders tags newest first. The result holds exactly the given entries —
/// the same multiset — sorted by their signature timestamps, descending.
pub fn sort_tags_desc(tags: Vec<TagEntry>) -> (r: Vec<TagEntry>)
    ensures
        r@.to_multiset() == tags@.to_multiset(),
        r@.len() == tags@.len(),
        forall|i: int, j: int| 0 <= i < j < r@.len() ==> tag_ge(#[trigger] r@[i], #[trigger] r@[j]),
{
    broadcast use vstd::seq_lib::group_to_multiset_ensures;

    let ghost orig = tags@;
    let mut work = tags;
    let mut out: Vec<TagEntry> = Vec::new();
    while work.len() > 0
        invariant
            out@.to_multiset().add(work@.to_multiset()) == orig.to_multiset(),
            out@.len() + work@.len() == orig.len(),
            forall|i: int, j: int|
                0 <= i < j < out@.len() ==> tag_ge(#[trigger] out@[i], #[trigger] out@[j]),
            forall|i: int, j: int|
                0 <= i < out@.len() && 0 <= j < work@.len() ==> tag_ge(
                    #[trigger] out@[i],
                    #[trigger] work@[j],
                ),
        decreases work@.len(),
    {
        let ghost work_prev = work@;
        let ghost out_prev = out@;
        let m = max_tag_index(&work);
        let v = work.remove(m);
        let ghost vg = v;
        out.push(v);
        proof {
            broadcast use vstd::multiset::group_multiset_axioms;

            vstd::seq_lib::to_multiset_remove(work_prev, m as int);
            vstd::seq_lib::to_multiset_build(out_prev, vg);
            vstd::seq_lib::to_multiset_contains(work_prev, vg);
            assert(work@ == work_prev.remove(m as int));
            assert(vg == work_prev[m as int]);
            assert(work_prev.contains(vg)) by {
                assert(work_prev[m as int] == vg);
            }
            assert(work_prev.remove(m as int).to_multiset() =~= work_prev.to_multiset().remove(
                work_prev[m as int],
            ));
            assert(work_prev.to_multiset().count(vg) > 0);
            assert(out_prev.push(vg).to_multiset() =~= out_prev.to_multiset().insert(vg));
            assert(work@.to_multiset() == work_prev.to_multiset().remove(vg));
            assert(out@.to_multiset() == out_prev.to_multiset().insert(vg));
            assert(out@.to_multiset().add(work@.to_multiset()) =~= out_prev.to_multiset().add(
                work_prev.to_multiset(),
            ));
            assert(forall|j: int|
                0 <= j < work@.len() ==> (work@[j] == work_prev[j] || work@[j] == work_prev[j
                    + 1]));
            assert(forall|j: int| 0 <= j < work@.len() ==> tag_ge(vg, #[trigger] work@[j]));
        }
    }
    proof {
        assert(work@.to_multiset() =~= Multiset::<TagEntry>::empty());
        assert(out@.to_multiset() =~= out@.to_multiset().add(work@.to_multiset()));
    }
    out
}

} // verus!
