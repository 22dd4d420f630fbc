//! Pagination over a walked commit history. A walk that starts `depth`
//! commits below a base covers the suffix of the history at that depth; each
//! page shows at most `per_page` commits and probes one further commit to
//! decide whether a next page exists.
use vstd::prelude::*;

verus! {

/// The commits a walk yields when it starts `depth` commits below the head of
/// a history that is not rewritten in between: the suffix at `depth`.
pub open spec fn walk_from<T>(h: Seq<T>, depth: nat) -> Seq<T> {
    if depth <= h.len() {
        h.skip(depth as int)
    } else {
        Seq::empty()
    }
}

/// The page shown at `depth`: the first `per_page` commits of the walk.
pub open spec fn page_at<T>(h: Seq<T>, depth: nat, per_page: nat) -> Seq<T> {
    let w = walk_from(h, depth);
    if w.len() <= per_page {
        w
    } else {
        w.take(per_page as int)
    }
}

/// Whether a next page exists at `depth`: the walk holds more than one page.
pub open spec fn has_next_page<T>(h: Seq<T>, depth: nat, per_page: nat) -> bool {
    walk_from(h, depth).len() > per_page
}

/// All pages from `depth` on, concatenated.
pub open spec fn pages_concat<T>(h: Seq<T>, per_page: nat, depth: nat) -> Seq<T>
    decreases h.len() - depth,
    when 1 <= per_page && depth <= h.len()
{
    if h.len() - depth <= per_page {
        h.skip(depth as int)
    } else {
        page_at(h, depth, per_page) + pages_concat(h, per_page, depth + per_page)
    }
}

/// How many pages a reader visits from `depth` on.
pub open spec fn pages_count<T>(h: Seq<T>, per_page: nat, depth: nat) -> nat
    decreases h.len() - depth,
    when 1 <= per_page && depth <= h.len()
{
    if h.len() - depth <= per_page {
        1
    } else {
        1 + pages_count(h, per_page, depth + per_page)
    }
}

/// Following next-page cursors visits every commit of the suffix exactly
/// once — the pages concatenate to the walk itself, with no duplicate and no
/// omission — and a history of size H takes ⌈H/per_page⌉ pages.
pub proof fn lemma_pages_cover<T>(h: Seq<T>, per_page: nat, depth: nat)
    requires
        1 <= per_page,
        depth <= h.len(),
    ensures
        pages_concat(h, per_page, depth) == walk_from(h, depth),
        h.len() - depth > 0 ==> pages_count(h, per_page, depth) == (h.len() - depth - 1) / (
        per_page as int) + 1,
    decreases h.len() - depth,
{
    if h.len() - depth <= per_page {
        assert(pages_concat(h, per_page, depth) == walk_from(h, depth));
        if h.len() - depth > 0 {
            assert((h.len() - depth - 1) / (per_page as int) == 0) by {
                vstd::arithmetic::div_mod::lemma_basic_div(
                    h.len() - depth - 1,
                    per_page as int,
                );
            }
        }
    } else {
        lemma_pages_cover(h, per_page, depth + per_page);
        let w = walk_from(h, depth);
        assert(page_at(h, depth, per_page) == w.take(per_page as int));
        assert(walk_from(h, depth + per_page) =~= w.skip(per_page as int));
        assert(w.take(per_page as int) + w.skip(per_page as int) =~= w);
        assert(pages_concat(h, per_page, depth) =~= w);
        let rest = h.len() - depth - per_page;
        assert(rest > 0);
        assert((rest - 1) + per_page == h.len() - depth - 1);
        vstd::arithmetic::div_mod::lemma_div_plus_one(rest - 1, per_page as int);
        assert((h.len() - depth - 1) / (per_page as int) == (rest - 1) / (per_page as int) + 1);
    }
}

/// Takes one page from the walked commits and reports whether a page follows:
/// at most `per_page` items, and a next page exactly when more were walked.
pub fn paginate(ids: &Vec<String>, per_page: usize) -> (r: (Vec<String>, bool))
    requires
        1 <= per_page,
    ensures
        r.1 == has_next_page(ids.deep_view(), 0, per_page as nat),
        r.0@.len() == page_at(ids.deep_view(), 0, per_page as nat).len(),
        forall|i: int|
            0 <= i < r.0@.len() ==> r.0@[i]@ == page_at(ids.deep_view(), 0, per_page as nat)[i],
{
    let n = ids.len();
    let count = if n <= per_page {
        n
    } else {
        per_page
    };
    let mut out: Vec<String> = Vec::new();
    let mut i: usize = 0;
    proof {
        assert(walk_from(ids.deep_view(), 0) =~= ids.deep_view());
        assert(ids.deep_view().len() == ids@.len());
    }
    while i < count
        invariant
            0 <= i <= count,
            count <= n,
            n == ids@.len(),
            out@.len() == i,
            forall|j: int| 0 <= j < i ==> out@[j]@ == ids@[j]@,
        decreases count - i,
    {
        let item = ids[i].clone();
        out.push(item);
        i = i + 1;
    }
    proof {
        assert(forall|j: int| 0 <= j < ids@.len() ==> ids.deep_view()[j] == ids@[j]@);
    }
    (out, n > per_page)
}

} // verus!
