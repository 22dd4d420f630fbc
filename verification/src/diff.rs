//! File-level change records, the library's model of tree-to-tree diffing,
//! and assembly of the unified patch text. The model here proves what a diff
//! owes: against "nothing" (a root commit) every tracked file is reported as
//! added, and a deleted file plus an added file with the same content id
//! merge into a single rename entry. The commit page itself shows the
//! store's delta set, whose similarity scoring also merges pairs whose
//! content changed; the model states the exact-content core of that rule.
use vstd::prelude::*;

verus! {

/// The change kinds a delta can report.
#[derive(Clone, Copy, Debug, PartialEq, Eq, Structural)]
pub enum DeltaKind {
    Added,
    Deleted,
    Modified,
    Renamed,
    Copied,
    TypeChanged,
}

/// A tracked file of one tree: its path and the id of its content.
pub struct FileRecord {
    pub path: String,
    pub blob_id: String,
}

/// The ghost image of a file record.
pub struct FileRecordV {
    pub path: Seq<char>,
    pub blob_id: Seq<char>,
}

impl View for FileRecord {
    type V = FileRecordV;

    open spec fn view(&self) -> FileRecordV {
        FileRecordV { path: self.path@, blob_id: self.blob_id@ }
    }
}

/// One file-level change record.
pub struct Delta {
    pub kind: DeltaKind,
    pub old_path: Option<String>,
    pub new_path: Option<String>,
    pub old_id: Option<String>,
    pub new_id: Option<String>,
    pub similarity: u16,
}

/// The ghost image of a delta.
pub struct DeltaV {
    pub kind: DeltaKind,
    pub old_path: Option<Seq<char>>,
    pub new_path: Option<Seq<char>>,
    pub old_id: Option<Seq<char>>,
    pub new_id: Option<Seq<char>>,
    pub similarity: int,
}

impl View for Delta {
    type V = DeltaV;

    open spec fn view(&self) -> DeltaV {
        DeltaV {
            kind: self.kind,
            old_path: match self.old_path {
                Some(p) => Some(p@),
                None => None,
            },
            new_path: match self.new_path {
                Some(p) => Some(p@),
                None => None,
            },
            old_id: match self.old_id {
                Some(p) => Some(p@),
                None => None,
            },
            new_id: match self.new_id {
                Some(p) => Some(p@),
                None => None,
            },
            similarity: self.similarity as int,
        }
    }
}

pub open spec fn recs(files: Seq<FileRecord>) -> Seq<FileRecordV> {
    files.map_values(|f: FileRecord| f@)
}

pub open spec fn deltas_of(ds: Seq<Delta>) -> Seq<DeltaV> {
    ds.map_values(|d: Delta| d@)
}

pub open spec fn added_delta(f: FileRecordV) -> DeltaV {
    DeltaV {
        kind: DeltaKind::Added,
        old_path: None,
        new_path: Some(f.path),
        old_id: None,
        new_id: Some(f.blob_id),
        similarity: 0,
    }
}

pub open spec fn deleted_delta(f: FileRecordV) -> DeltaV {
    DeltaV {
        kind: DeltaKind::Deleted,
        old_path: Some(f.path),
        new_path: None,
        old_id: Some(f.blob_id),
        new_id: None,
        similarity: 0,
    }
}

pub open spec fn modified_delta(old: FileRecordV, new: FileRecordV) -> DeltaV {
    DeltaV {
        kind: DeltaKind::Modified,
        old_path: Some(old.path),
        new_path: Some(new.path),
        old_id: Some(old.blob_id),
        new_id: Some(new.blob_id),
        similarity: 0,
    }
}

pub open spec fn renamed_delta(
    old_path: Option<Seq<char>>,
    new_path: Option<Seq<char>>,
    id: Option<Seq<char>>,
) -> DeltaV {
    DeltaV {
        kind: DeltaKind::Renamed,
        old_path: old_path,
        new_path: new_path,
        old_id: id,
        new_id: id,
        similarity: 100,
    }
}

/// The content id recorded for `p`, scanning from position `i`.
pub open spec fn find_in(files: Seq<FileRecordV>, p: Seq<char>, i: int) -> Option<Seq<char>>
    decreases files.len() - i,
{
    if i < 0 || i >= files.len() {
        None
    } else if files[i].path == p {
        Some(files[i].blob_id)
    } else {
        find_in(files, p, i + 1)
    }
}

pub open spec fn has_path(files: Seq<FileRecordV>, p: Seq<char>) -> bool {
    find_in(files, p, 0) is Some
}

/// The files of `old` whose paths left the tree, in tree order.
pub open spec fn deleted_part(old: Seq<FileRecordV>, new: Seq<FileRecordV>) -> Seq<DeltaV>
    decreases old.len(),
{
    if old.len() == 0 {
        Seq::empty()
    } else {
        deleted_part(old.drop_last(), new) + if !has_path(new, old.last().path) {
            seq![deleted_delta(old.last())]
        } else {
            Seq::empty()
        }
    }
}

/// The files of `new` that replaced different content at the same path.
pub open spec fn modified_part(old: Seq<FileRecordV>, new: Seq<FileRecordV>) -> Seq<DeltaV>
    decreases new.len(),
{
    if new.len() == 0 {
        Seq::empty()
    } else {
        modified_part(old, new.drop_last()) + {
            let f = new.last();
            match find_in(old, f.path, 0) {
                Some(old_id) => if old_id != f.blob_id {
                    seq![
                        modified_delta(FileRecordV { path: f.path, blob_id: old_id }, f),
                    ]
                } else {
                    Seq::empty()
                },
                None => Seq::empty(),
            }
        }
    }
}

/// The files of `new` at paths the old tree did not hold.
pub open spec fn added_part(old: Seq<FileRecordV>, new: Seq<FileRecordV>) -> Seq<DeltaV>
    decreases new.len(),
{
    if new.len() == 0 {
        Seq::empty()
    } else {
        added_part(old, new.drop_last()) + if !has_path(old, new.last().path) {
            seq![added_delta(new.last())]
        } else {
            Seq::empty()
        }
    }
}

/// The diff of two trees. Against "nothing" — a root commit — every tracked
/// file is reported as added, never as modified.
pub open spec fn spec_tree_diff(old: Option<Seq<FileRecordV>>, new: Seq<FileRecordV>) -> Seq<
    DeltaV,
> {
    match old {
        None => added_part(Seq::empty(), new),
        Some(o) => deleted_part(o, new) + modified_part(o, new) + added_part(o, new),
    }
}

proof fn lemma_map_push(s: Seq<Delta>, d: Delta)
    ensures
        deltas_of(s.push(d)) == deltas_of(s).push(d@),
{
    assert forall|l: int| 0 <= l < s.push(d).len() implies deltas_of(s.push(d))[l] == deltas_of(
        s,
    ).push(d@)[l] by {
        assert(deltas_of(s.push(d))[l] == s.push(d)[l]@);
        if l < s.len() {
            assert(s.push(d)[l] == s[l]);
            assert(deltas_of(s)[l] == s[l]@);
        } else {
            assert(s.push(d)[l] == d);
        }
    }
    assert(deltas_of(s.push(d)) =~~= deltas_of(s).push(d@));
}

proof fn lemma_modified_step(old: Seq<FileRecordV>, new: Seq<FileRecordV>, j: int)
    requires
        0 <= j < new.len(),
    ensures
        modified_part(old, new.take(j + 1)) == modified_part(old, new.take(j)) + (match find_in(
            old,
            new[j].path,
            0,
        ) {
            Some(old_id) => if old_id != new[j].blob_id {
                seq![
                    modified_delta(FileRecordV { path: new[j].path, blob_id: old_id }, new[j]),
                ]
            } else {
                Seq::empty()
            },
            None => Seq::empty(),
        }),
{
    assert(new.take(j + 1).drop_last() =~= new.take(j));
    assert(new.take(j + 1).last() == new[j]);
}

proof fn lemma_added_step(old: Seq<FileRecordV>, new: Seq<FileRecordV>, j: int)
    requires
        0 <= j < new.len(),
    ensures
        added_part(old, new.take(j + 1)) == added_part(old, new.take(j)) + (if !has_path(
            old,
            new[j].path,
        ) {
            seq![added_delta(new[j])]
        } else {
            Seq::empty()
        }),
{
    assert(new.take(j + 1).drop_last() =~= new.take(j));
    assert(new.take(j + 1).last() == new[j]);
}

proof fn lemma_added_part_all(old: Seq<FileRecordV>, new: Seq<FileRecordV>)
    requires
        forall|p: Seq<char>| !has_path(old, p),
    ensures
        added_part(old, new).len() == new.len(),
        forall|i: int| 0 <= i < new.len() ==> #[trigger] added_part(old, new)[i] == added_delta(
            new[i],
        ),
    decreases new.len(),
{
    if new.len() > 0 {
        lemma_added_part_all(old, new.drop_last());
        assert(added_part(old, new) =~= added_part(old, new.drop_last()) + seq![
            added_delta(new.last()),
        ]);
        assert(forall|i: int|
            0 <= i < new.len() - 1 ==> #[trigger] added_part(old, new)[i] == added_part(
                old,
                new.drop_last(),
            )[i]);
        assert(new.drop_last().len() == new.len() - 1);
        assert(forall|i: int| 0 <= i < new.len() - 1 ==> new.drop_last()[i] == new[i]);
    }
}

/// A root commit's diff holds exactly one `Added` delta per tracked file, and
/// no other kind.
pub proof fn lemma_root_diff_all_added(new: Seq<FileRecordV>)
    ensures
        spec_tree_diff(None, new).len() == new.len(),
        forall|i: int|
            0 <= i < new.len() ==> #[trigger] spec_tree_diff(None, new)[i].kind is Added,
        forall|i: int|
            0 <= i < new.len() ==> !(#[trigger] spec_tree_diff(None, new)[i].kind is Modified),
        forall|i: int|
            0 <= i < new.len() ==> #[trigger] spec_tree_diff(None, new)[i].new_path == Some(
                new[i].path,
            ),
{
    assert(forall|p: Seq<char>| !has_path(Seq::<FileRecordV>::empty(), p));
    lemma_added_part_all(Seq::empty(), new);
}

fn find_record(files: &Vec<FileRecord>, p: &str) -> (r: Option<String>)
    ensures
        match r {
            Some(id) => find_in(recs(files@), p@, 0) == Some(id@),
            None => find_in(recs(files@), p@, 0) is None,
        },
{
    let n = files.len();
    let mut i: usize = 0;
    while i < n
        invariant
            0 <= i <= n,
            n == files@.len(),
            find_in(recs(files@), p@, 0) == find_in(recs(files@), p@, i as int),
        decreases n - i,
    {
        if crate::text::str_eq(files[i].path.as_str(), p) {
            proof {
                assert(recs(files@)[i as int].path == p@);
            }
            return Some(files[i].blob_id.clone());
        }
        proof {
            assert(recs(files@)[i as int].path != p@);
        }
        i = i + 1;
    }
    None
}

/// Computes the diff of two trees; `None` for the old side means a root
/// commit diffed against nothing.
pub fn tree_diff(old: Option<&Vec<FileRecord>>, new: &Vec<FileRecord>) -> (r: Vec<Delta>)
    ensures
        deltas_of(r@) == spec_tree_diff(
            match old {
                Some(o) => Some(recs(o@)),
                None => None,
            },
            recs(new@),
        ),
{
    let mut out: Vec<Delta> = Vec::new();
    match old {
        None => {
            let n = new.len();
            let mut i: usize = 0;
            while i < n
                invariant
                    0 <= i <= n,
                    n == new@.len(),
                    deltas_of(out@) =~~= added_part(Seq::empty(), recs(new@).take(i as int)),
                decreases n - i,
            {
                out.push(
                    Delta {
                        kind: DeltaKind::Added,
                        old_path: None,
                        new_path: Some(new[i].path.clone()),
                        old_id: None,
                        new_id: Some(new[i].blob_id.clone()),
                        similarity: 0,
                    },
                );
                proof {
                    assert(recs(new@).take(i + 1).drop_last() =~= recs(new@).take(i as int));
                    assert(recs(new@).take(i + 1).last() == recs(new@)[i as int]);
                    assert(deltas_of(out@) =~~= added_part(Seq::empty(), recs(new@).take(i + 1)));
                }
                i = i + 1;
            }
            proof {
                assert(recs(new@).take(n as int) =~= recs(new@));
            }
            out
        },
        Some(o) => {
            let n_old = o.len();
            let mut i: usize = 0;
            while i < n_old
                invariant
                    0 <= i <= n_old,
                    n_old == o@.len(),
                    deltas_of(out@) =~~= deleted_part(recs(o@).take(i as int), recs(new@)),
                decreases n_old - i,
            {
                let present = find_record(new, o[i].path.as_str());
                if present.is_none() {
                    out.push(
                        Delta {
                            kind: DeltaKind::Deleted,
                            old_path: Some(o[i].path.clone()),
                            new_path: None,
                            old_id: Some(o[i].blob_id.clone()),
                            new_id: None,
                            similarity: 0,
                        },
                    );
                }
                proof {
                    assert(recs(o@).take(i + 1).drop_last() =~= recs(o@).take(i as int));
                    assert(recs(o@).take(i + 1).last() == recs(o@)[i as int]);
                    assert(deltas_of(out@) =~~= deleted_part(recs(o@).take(i + 1), recs(new@)));
                }
                i = i + 1;
            }
            proof {
                assert(recs(o@).take(n_old as int) =~= recs(o@));
            }
            let n_new = new.len();
            let mut j: usize = 0;
            while j < n_new
                invariant
                    0 <= j <= n_new,
                    n_new == new@.len(),
                    deltas_of(out@) =~~= deleted_part(recs(o@), recs(new@)) + modified_part(
                        recs(o@),
                        recs(new@).take(j as int),
                    ),
                decreases n_new - j,
            {
                let ghost prev = out@;
                match find_record(o, new[j].path.as_str()) {
                    Some(old_id) => {
                        proof {
                            assert(find_in(recs(o@), recs(new@)[j as int].path, 0) == Some(
                                old_id@,
                            ));
                        }
                        if !(old_id == new[j].blob_id) {
                            let d = Delta {
                                kind: DeltaKind::Modified,
                                old_path: Some(new[j].path.clone()),
                                new_path: Some(new[j].path.clone()),
                                old_id: Some(old_id),
                                new_id: Some(new[j].blob_id.clone()),
                                similarity: 0,
                            };
                            let ghost dg = d;
                            out.push(d);
                            proof {
                                lemma_map_push(prev, dg);
                            }
                        }
                    },
                    None => {},
                }
                proof {
                    lemma_modified_step(recs(o@), recs(new@), j as int);
                    assert(recs(new@)[j as int].path == new@[j as int].path@);
                    assert(recs(new@)[j as int].blob_id == new@[j as int].blob_id@);
                    assert(deltas_of(out@) =~~= deleted_part(recs(o@), recs(new@)) + modified_part(
                        recs(o@),
                        recs(new@).take(j + 1),
                    ));
                }
                j = j + 1;
            }
            proof {
                assert(recs(new@).take(n_new as int) =~= recs(new@));
                assert(recs(new@).take(0) =~= Seq::<FileRecordV>::empty());
                assert(deltas_of(out@) =~~= deleted_part(recs(o@), recs(new@)) + modified_part(
                    recs(o@),
                    recs(new@),
                ) + added_part(recs(o@), recs(new@).take(0)));
            }
            let mut k: usize = 0;
            while k < n_new
                invariant
                    0 <= k <= n_new,
                    n_new == new@.len(),
                    deltas_of(out@) =~~= deleted_part(recs(o@), recs(new@)) + modified_part(
                        recs(o@),
                        recs(new@),
                    ) + added_part(recs(o@), recs(new@).take(k as int)),
                decreases n_new - k,
            {
                let ghost prev = out@;
                let present = find_record(o, new[k].path.as_str());
                if present.is_none() {
                    let d = Delta {
                        kind: DeltaKind::Added,
                        old_path: None,
                        new_path: Some(new[k].path.clone()),
                        old_id: None,
                        new_id: Some(new[k].blob_id.clone()),
                        similarity: 0,
                    };
                    let ghost dg = d;
                    out.push(d);
                    proof {
                        lemma_map_push(prev, dg);
                    }
                }
                proof {
                    lemma_added_step(recs(o@), recs(new@), k as int);
                    assert(recs(new@)[k as int].path == new@[k as int].path@);
                    assert(recs(new@)[k as int].blob_id == new@[k as int].blob_id@);
                    assert(deltas_of(out@) =~~= deleted_part(recs(o@), recs(new@)) + modified_part(
                        recs(o@),
                        recs(new@),
                    ) + added_part(recs(o@), recs(new@).take(k + 1)));
                }
                k = k + 1;
            }
            proof {
                assert(recs(new@).take(n_new as int) =~= recs(new@));
            }
            out
        },
    }
}


/// The first `Added` entry (at or after `i`) whose content id is `id`.
pub open spec fn spec_first_added(ds: Seq<DeltaV>, id: Option<Seq<char>>, i: int) -> Option<int>
    decreases ds.len() - i,
{
    if i < 0 || i >= ds.len() {
        None
    } else if ds[i].kind is Added && ds[i].new_id == id {
        Some(i)
    } else {
        spec_first_added(ds, id, i + 1)
    }
}

/// Rename detection: a deleted entry and the first added entry carrying the
/// same content id merge into one `Renamed` entry; everything else passes
/// through unchanged, in order.
pub open spec fn spec_renames(ds: Seq<DeltaV>) -> Seq<DeltaV>
    decreases ds.len(),
{
    if ds.len() == 0 {
        Seq::empty()
    } else {
        let first = ds.first();
        let rest = ds.drop_first();
        if first.kind is Deleted {
            match spec_first_added(rest, first.old_id, 0) {
                Some(j) => if 0 <= j < rest.len() {
                    seq![renamed_delta(first.old_path, rest[j].new_path, first.old_id)]
                        + spec_renames(rest.remove(j))
                } else {
                    seq![first] + spec_renames(rest)
                },
                None => seq![first] + spec_renames(rest),
            }
        } else {
            seq![first] + spec_renames(rest)
        }
    }
}

/// A commit that deletes path A and adds path B with the same content
/// reports exactly one rename entry A to B — not one add and one delete.
pub proof fn lemma_rename_pair(a_path: Seq<char>, b_path: Seq<char>, id: Seq<char>)
    ensures
        spec_renames(
            seq![
                deleted_delta(FileRecordV { path: a_path, blob_id: id }),
                added_delta(FileRecordV { path: b_path, blob_id: id }),
            ],
        ) == seq![renamed_delta(Some(a_path), Some(b_path), Some(id))],
{
    let del = deleted_delta(FileRecordV { path: a_path, blob_id: id });
    let add = added_delta(FileRecordV { path: b_path, blob_id: id });
    let ds = seq![del, add];
    assert(ds.first() == del);
    assert(ds.drop_first() =~= seq![add]);
    assert(spec_first_added(seq![add], del.old_id, 0) == Some(0int));
    assert(seq![add].remove(0) =~= Seq::<DeltaV>::empty());
    assert(spec_renames(Seq::<DeltaV>::empty()) =~= Seq::<DeltaV>::empty());
    assert(spec_renames(ds) =~= seq![renamed_delta(Some(a_path), Some(b_path), Some(id))]);
}

proof fn lemma_map_remove(s: Seq<Delta>, j: int)
    requires
        0 <= j < s.len(),
    ensures
        deltas_of(s.remove(j)) == deltas_of(s).remove(j),
{
    assert forall|l: int| 0 <= l < s.remove(j).len() implies deltas_of(s.remove(j))[l]
        == deltas_of(s).remove(j)[l] by {
        assert(deltas_of(s.remove(j))[l] == s.remove(j)[l]@);
        if l < j {
            assert(s.remove(j)[l] == s[l]);
            assert(deltas_of(s)[l] == s[l]@);
        } else {
            assert(s.remove(j)[l] == s[l + 1]);
            assert(deltas_of(s)[l + 1] == s[l + 1]@);
        }
    }
    assert(deltas_of(s.remove(j)) =~~= deltas_of(s).remove(j));
}

fn option_id_eq(a: &Option<String>, b: &Option<String>) -> (r: bool)
    ensures
        r == ((match a {
            Some(x) => Some(x@),
            None => None,
        }) == (match b {
            Some(y) => Some(y@),
            None => None,
        })),
{
    match (a, b) {
        (Some(x), Some(y)) => crate::text::str_eq(x.as_str(), y.as_str()),
        (None, None) => true,
        _ => false,
    }
}

fn find_added_in(work: &Vec<Delta>, id: &Option<String>) -> (r: Option<usize>)
    ensures
        ({
            let idv = match id {
                Some(x) => Some(x@),
                None => None,
            };
            match r {
                Some(j) => j < work@.len() && spec_first_added(deltas_of(work@), idv, 0) == Some(
                    j as int,
                ),
                None => spec_first_added(deltas_of(work@), idv, 0) is None,
            }
        }),
{
    let n = work.len();
    let mut i: usize = 0;
    let ghost idv = match id {
        Some(x) => Some(x@),
        None => None,
    };
    while i < n
        invariant
            0 <= i <= n,
            n == work@.len(),
            idv == (match id {
                Some(x) => Some(x@),
                None => None,
            }),
            spec_first_added(deltas_of(work@), idv, 0) == spec_first_added(
                deltas_of(work@),
                idv,
                i as int,
            ),
        decreases n - i,
    {
        proof {
            assert(deltas_of(work@)[i as int] == work@[i as int]@);
        }
        let hit = match work[i].kind {
            DeltaKind::Added => option_id_eq(&work[i].new_id, id),
            _ => false,
        };
        if hit {
            return Some(i);
        }
        i = i + 1;
    }
    None
}

/// Applies rename detection to a delta list: each deleted entry that has an
/// added partner with the same content id becomes a single rename entry.
pub fn find_renames(ds: Vec<Delta>) -> (r: Vec<Delta>)
    ensures
        deltas_of(r@) == spec_renames(deltas_of(ds@)),
{
    let ghost total = deltas_of(ds@);
    let mut work = ds;
    let mut out: Vec<Delta> = Vec::new();
    proof {
        assert(deltas_of(out@) =~~= Seq::<DeltaV>::empty());
    }
    while work.len() > 0
        invariant
            spec_renames(total) =~~= deltas_of(out@) + spec_renames(deltas_of(work@)),
        decreases work@.len(),
    {
        let ghost work_prev = work@;
        let first = work.remove(0);
        proof {
            lemma_map_remove(work_prev, 0);
            assert(deltas_of(work_prev).remove(0) =~~= deltas_of(work_prev).drop_first());
            assert(deltas_of(work_prev).first() == work_prev[0]@);
            assert(first@ == deltas_of(work_prev).first());
        }
        let ghost out_prev = out@;
        let is_deleted = match first.kind {
            DeltaKind::Deleted => true,
            _ => false,
        };
        let hit: Option<usize> = if is_deleted {
            find_added_in(&work, &first.old_id)
        } else {
            None
        };
        match hit {
            Some(j) => {
                let ghost work_mid = work@;
                let partner = work.remove(j);
                proof {
                    lemma_map_remove(work_mid, j as int);
                    assert(partner@ == deltas_of(work_mid)[j as int]);
                }
                let ghost firstg = first;
                let old_id_copy = first.old_id.clone();
                let d = Delta {
                    kind: DeltaKind::Renamed,
                    old_path: first.old_path,
                    new_path: partner.new_path,
                    old_id: old_id_copy,
                    new_id: first.old_id,
                    similarity: 100,
                };
                let ghost dg = d;
                out.push(d);
                proof {
                    lemma_map_push(out_prev, dg);
                    assert(dg@ == renamed_delta(
                        deltas_of(work_prev).first().old_path,
                        deltas_of(work_mid)[j as int].new_path,
                        deltas_of(work_prev).first().old_id,
                    ));
                }
            },
            None => {
                let ghost dg2 = first;
                out.push(first);
                proof {
                    lemma_map_push(out_prev, dg2);
                    assert(dg2@ == deltas_of(work_prev).first());
                }
            },
        }
        proof {
            assert(spec_renames(total) =~~= deltas_of(out@) + spec_renames(deltas_of(work@)));
        }
    }
    proof {
        assert(deltas_of(work@) =~~= Seq::<DeltaV>::empty());
        assert(spec_renames(Seq::<DeltaV>::empty()) =~= Seq::<DeltaV>::empty());
        assert(deltas_of(out@) =~~= spec_renames(total));
    }
    out
}

/// One line of a printed diff: its origin marker and its text, absent when
/// the bytes were not valid text.
pub struct PatchLine {
    pub origin: char,
    pub text: Option<String>,
}

/// The ghost image of a patch line.
pub struct PatchLineV {
    pub origin: char,
    pub text: Option<Seq<char>>,
}

impl View for PatchLine {
    type V = PatchLineV;

    open spec fn view(&self) -> PatchLineV {
        PatchLineV {
            origin: self.origin,
            text: match self.text {
                Some(t) => Some(t@),
                None => None,
            },
        }
    }
}

pub open spec fn patch_lines_of(ls: Seq<PatchLine>) -> Seq<PatchLineV> {
    ls.map_values(|l: PatchLine| l@)
}

/// The origins that are echoed into the patch text; file and hunk headers
/// carry none.
pub open spec fn origin_marked(o: char) -> bool {
    o == ' ' || o == '+' || o == '-' || o == '=' || o == '<' || o == '>'
}

/// The unified patch text from line `i` on: each line keeps its content,
/// prefixed with its origin marker; the first line that is not valid text is
/// replaced by a fixed placeholder and ends the patch.
pub open spec fn spec_patch_from(lines: Seq<PatchLineV>, i: int) -> Seq<char>
    decreases lines.len() - i,
{
    if i < 0 || i >= lines.len() {
        Seq::empty()
    } else {
        match lines[i].text {
            Some(t) => (if origin_marked(lines[i].origin) {
                seq![lines[i].origin]
            } else {
                Seq::empty()
            }) + t + spec_patch_from(lines, i + 1),
            None => "Cannot display diff for binary file."@,
        }
    }
}

pub open spec fn spec_patch_text(lines: Seq<PatchLineV>) -> Seq<char> {
    spec_patch_from(lines, 0)
}

/// Renders printed diff lines as one unified patch text.
pub fn patch_text(lines: &Vec<PatchLine>) -> (r: String)
    ensures
        r@ == spec_patch_text(patch_lines_of(lines@)),
{
    let ghost lv = patch_lines_of(lines@);
    let n = lines.len();
    let mut out = String::new();
    let mut i: usize = 0;
    proof {
        assert(lv.len() == lines@.len());
    }
    while i < n
        invariant
            0 <= i <= n,
            n == lines@.len(),
            lv == patch_lines_of(lines@),
            lv.len() == n,
            spec_patch_from(lv, 0) == out@ + spec_patch_from(lv, i as int),
        decreases n - i,
    {
        proof {
            assert(lv[i as int] == lines@[i as int]@);
        }
        let ghost out_prev = out@;
        match &lines[i].text {
            Some(t) => {
                let o = lines[i].origin;
                if o == ' ' || o == '+' || o == '-' || o == '=' || o == '<' || o == '>' {
                    let oc = crate::text::char_to_string(o);
                    out.append(oc.as_str());
                }
                out.append(t.as_str());
                proof {
                    if origin_marked(lv[i as int].origin) {
                        assert(out@ =~= out_prev + (seq![lv[i as int].origin] + t@));
                        assert(out@ =~= out_prev + (seq![lv[i as int].origin] + t@
                            + Seq::<char>::empty()));
                    } else {
                        assert(out@ =~= out_prev + (Seq::<char>::empty() + t@
                            + Seq::<char>::empty()));
                    }
                    assert(spec_patch_from(lv, i as int) == (if origin_marked(
                        lv[i as int].origin,
                    ) {
                        seq![lv[i as int].origin]
                    } else {
                        Seq::<char>::empty()
                    }) + t@ + spec_patch_from(lv, i + 1));
                    assert(spec_patch_from(lv, 0) =~= out@ + spec_patch_from(lv, i + 1));
                }
            },
            None => {
                out.append("Cannot display diff for binary file.");
                proof {
                    assert(spec_patch_from(lv, i as int)
                        == "Cannot display diff for binary file."@);
                    assert(spec_patch_from(lv, 0) =~= out@);
                }
                return out;
            },
        }
        i = i + 1;
    }
    proof {
        assert(spec_patch_from(lv, n as int) =~= Seq::<char>::empty());
        assert(spec_patch_from(lv, 0) =~= out@);
    }
    out
}

} // verus!
