//! The narrow trusted interface to the object store. Every function here is
//! a thin wrapper around one operation of the git2 crate: it converts between
//! the store's opaque handles and the library's plain data, and nothing else.
//! What each wrapper may promise is limited to what the store's own
//! documentation states; results that depend on the repository on disk carry
//! no promise at all, and the verified logic takes them as arbitrary values.
use crate::diff::{Delta, DeltaKind, PatchLine};
use crate::model::{BranchInfo, CommitInfo, TreeEntryInfo};
use vstd::prelude::*;

verus! {

#[verifier::external_type_specification]
#[verifier::external_body]
pub struct ExRepository(git2::Repository);

#[verifier::external_type_specification]
#[verifier::external_body]
pub struct ExObject<'a>(git2::Object<'a>);

#[verifier::external_type_specification]
#[verifier::external_body]
pub struct ExCommit<'a>(git2::Commit<'a>);

#[verifier::external_type_specification]
#[verifier::external_body]
pub struct ExTree<'a>(git2::Tree<'a>);

#[verifier::external_type_specification]
#[verifier::external_body]
pub struct ExBlob<'a>(git2::Blob<'a>);

#[verifier::external_type_specification]
#[verifier::external_body]
pub struct ExTag<'a>(git2::Tag<'a>);

#[verifier::external_type_specification]
#[verifier::external_body]
pub struct ExReference<'a>(git2::Reference<'a>);

#[verifier::external_type_specification]
#[verifier::external_body]
pub struct ExDiff<'a>(git2::Diff<'a>);

#[verifier::external_type_specification]
#[verifier::external_body]
pub struct ExGitError(git2::Error);

#[verifier::external_type_specification]
#[verifier::external_body]
pub struct ExGitSignature<'a>(git2::Signature<'a>);

/// Relies on git2::Repository::open: opens the repository on disk at `path`,
/// or nothing when none can be opened there.
#[verifier::external_body]
pub fn open_repository(path: &str) -> (r: Option<git2::Repository>) {
    git2::Repository::open(path).ok()
}

/// Relies on git2::Repository::path: the repository's metadata directory.
#[verifier::external_body]
pub fn repo_gitdir(repo: &git2::Repository) -> (r: String) {
    repo.path().to_string_lossy().into_owned()
}

/// Relies on git2::Repository::workdir: the working directory of a non-bare
/// repository.
#[verifier::external_body]
pub fn repo_workdir(repo: &git2::Repository) -> (r: Option<String>) {
    repo.workdir().map(|p| p.to_string_lossy().into_owned())
}

/// Relies on git2::Repository::is_empty: whether the repository has no
/// commits.
#[verifier::external_body]
pub fn repo_is_empty(repo: &git2::Repository) -> (r: Result<bool, git2::Error>) {
    repo.is_empty()
}

/// Relies on git2::Repository::is_shallow: whether the repository is a
/// shallow clone, whose history cannot be walked further.
#[verifier::external_body]
pub fn repo_is_shallow(repo: &git2::Repository) -> (r: bool) {
    repo.is_shallow()
}

/// Relies on git2::Repository::head: the reference the head points at.
#[verifier::external_body]
pub fn repo_head(repo: &git2::Repository) -> (r: Result<git2::Reference<'_>, git2::Error>) {
    repo.head()
}

/// Relies on git2::Reference::shorthand_bytes: the short name of a
/// reference, decoded leniently.
#[verifier::external_body]
pub fn reference_shorthand(re: &git2::Reference) -> (r: String) {
    String::from_utf8_lossy(re.shorthand_bytes()).into_owned()
}

/// Relies on git2::Reference::peel_to_commit: the commit a reference points
/// at.
#[verifier::external_body]
pub fn reference_peel_to_commit<'r>(re: &git2::Reference<'r>) -> (r: Result<
    git2::Commit<'r>,
    git2::Error,
>) {
    re.peel_to_commit()
}

/// Relies on git2::Repository::revparse_single: resolves a revision
/// specifier — a name, an id, or a `base~N` expression — to one object.
#[verifier::external_body]
pub fn revparse_object<'r>(repo: &'r git2::Repository, spec: &str) -> (r: Result<
    git2::Object<'r>,
    git2::Error,
>) {
    repo.revparse_single(spec)
}

/// Relies on git2::Object::peel_to_commit.
#[verifier::external_body]
pub fn object_peel_to_commit<'r>(o: &git2::Object<'r>) -> (r: Result<
    git2::Commit<'r>,
    git2::Error,
>) {
    o.peel_to_commit()
}

/// Relies on git2::Object::peel_to_tag.
#[verifier::external_body]
pub fn object_peel_to_tag<'r>(o: &git2::Object<'r>) -> (r: Result<git2::Tag<'r>, git2::Error>) {
    o.peel_to_tag()
}

/// Relies on git2::Object::peel_to_blob.
#[verifier::external_body]
pub fn object_peel_to_blob<'r>(o: &git2::Object<'r>) -> (r: Result<git2::Blob<'r>, git2::Error>) {
    o.peel_to_blob()
}

/// Relies on git2::Object::into_tree: the object as a tree, or itself back.
#[verifier::external_body]
pub fn object_into_tree<'r>(o: git2::Object<'r>) -> (r: Result<git2::Tree<'r>, git2::Object<'r>>) {
    o.into_tree()
}

/// Relies on git2::Signature accessors: the recorded name, email, and
/// moment, decoded leniently; an email that is not valid text is absent.
#[verifier::external_body]
pub fn signature_info(s: &git2::Signature) -> (r: crate::model::Ident) {
    crate::model::Ident {
        name: String::from_utf8_lossy(s.name_bytes()).into_owned(),
        email: s.email().ok().map(|e| e.to_owned()),
        when_seconds: s.when().seconds(),
        when_offset_minutes: s.when().offset_minutes(),
    }
}

/// Relies on git2::Commit accessors: the commit's id, signatures, message,
/// parents, and tree id, as plain values.
#[verifier::external_body]
pub fn commit_info(c: &git2::Commit) -> (r: CommitInfo) {
    CommitInfo {
        id: c.id().to_string(),
        author: signature_info(&c.author()),
        committer: signature_info(&c.committer()),
        message: String::from_utf8_lossy(c.message_bytes()).into_owned(),
        parent_ids: c.parent_ids().map(|p| p.to_string()).collect(),
        tree_id: c.tree_id().to_string(),
    }
}

/// Relies on git2::Commit::id.
#[verifier::external_body]
pub fn commit_id_hex(c: &git2::Commit) -> (r: String) {
    c.id().to_string()
}

/// Relies on git2::Tag::id.
#[verifier::external_body]
pub fn tag_id_hex(t: &git2::Tag) -> (r: String) {
    t.id().to_string()
}

/// Relies on git2::Commit::tree.
#[verifier::external_body]
pub fn commit_tree<'r>(c: &git2::Commit<'r>) -> (r: Result<git2::Tree<'r>, git2::Error>) {
    c.tree()
}

/// Relies on git2::Commit::parent_count.
#[verifier::external_body]
pub fn commit_parent_count(c: &git2::Commit) -> (r: usize) {
    c.parent_count()
}

/// Relies on git2::Commit::parent.
#[verifier::external_body]
pub fn commit_parent<'r>(c: &git2::Commit<'r>, i: usize) -> (r: Result<
    git2::Commit<'r>,
    git2::Error,
>) {
    c.parent(i)
}

/// Relies on git2::Revwalk: the ids of the commits reachable from the given
/// commit, in commit-time order, newest first, as the store walks them.
#[verifier::external_body]
pub fn walk_commit_ids(repo: &git2::Repository, start_id_hex: &str) -> (r: Result<
    Vec<String>,
    git2::Error,
>) {
    let mut walk = repo.revwalk()?;
    walk.push(git2::Oid::from_str(start_id_hex)?)?;
    walk.set_sorting(git2::Sort::TIME)?;
    Ok(walk.filter_map(|o| o.ok()).map(|o| o.to_string()).collect())
}

/// Relies on git2::Repository::find_commit, with the id parsed from hex.
#[verifier::external_body]
pub fn find_commit_by_hex<'r>(repo: &'r git2::Repository, id_hex: &str) -> (r: Result<
    git2::Commit<'r>,
    git2::Error,
>) {
    repo.find_commit(git2::Oid::from_str(id_hex)?)
}

/// Relies on git2::Repository::diff_tree_to_tree, optionally restricted to
/// one path; an absent old tree diffs against nothing.
#[verifier::external_body]
pub fn diff_trees<'r>(
    repo: &'r git2::Repository,
    old: Option<&git2::Tree<'r>>,
    new: Option<&git2::Tree<'r>>,
    pathspec: Option<&str>,
) -> (r: Result<git2::Diff<'r>, git2::Error>) {
    let mut opts = git2::DiffOptions::new();
    if let Some(p) = pathspec {
        opts.pathspec(p);
    }
    repo.diff_tree_to_tree(old, new, Some(&mut opts))
}

/// Relies on git2::Diff::stats: how many files the diff touches.
#[verifier::external_body]
pub fn diff_files_changed(d: &git2::Diff) -> (r: Result<usize, git2::Error>) {
    Ok(d.stats()?.files_changed())
}

/// Relies on git2::Diff::find_similar with every find option enabled:
/// reclassifies added and deleted entries with similar content as renames,
/// copies, and rewrites inside the diff itself.
#[verifier::external_body]
pub fn diff_find_similar(d: &mut git2::Diff) -> (r: Result<(), git2::Error>) {
    let mut opts = git2::DiffFindOptions::new();
    opts.all(true);
    d.find_similar(Some(&mut opts))
}

/// Relies on git2::Diff::deltas and the DiffDelta accessors: each file-level
/// change record as plain values, in the store's own order. A tree-to-tree
/// diff reports added, deleted, modified, renamed, copied, and type-changed
/// entries; the similarity score itself is not exposed by the crate, so the
/// field stays zero.
#[verifier::external_body]
pub fn diff_delta_records(d: &git2::Diff) -> (r: Vec<Delta>) {
    d.deltas().map(|del| Delta {
        kind: match del.status() {
            git2::Delta::Added => DeltaKind::Added,
            git2::Delta::Deleted => DeltaKind::Deleted,
            git2::Delta::Renamed => DeltaKind::Renamed,
            git2::Delta::Copied => DeltaKind::Copied,
            git2::Delta::Typechange => DeltaKind::TypeChanged,
            _ => DeltaKind::Modified,
        },
        old_path: del.old_file().path().map(|p| p.to_string_lossy().into_owned()),
        new_path: del.new_file().path().map(|p| p.to_string_lossy().into_owned()),
        old_id: Some(del.old_file().id().to_string()),
        new_id: Some(del.new_file().id().to_string()),
        similarity: 0,
    }).collect()
}

/// Relies on git2::Diff::print in patch format: each printed line's origin
/// marker and content, the content absent when it is not valid text.
#[verifier::external_body]
pub fn diff_patch_lines(d: &git2::Diff) -> (r: Vec<PatchLine>) {
    let mut out: Vec<PatchLine> = Vec::new();
    let _ = d.print(git2::DiffFormat::Patch, |_d, _h, line| {
        out.push(PatchLine {
            origin: line.origin(),
            text: std::str::from_utf8(line.content()).ok().map(|s| s.to_owned()),
        });
        true
    });
    out
}

/// Relies on git2::Tree::get_path and git2::TreeEntry::to_object: the object
/// at a slash-separated path below the tree.
#[verifier::external_body]
pub fn tree_lookup<'r>(repo: &'r git2::Repository, t: &git2::Tree<'r>, path: &str) -> (r: Result<
    git2::Object<'r>,
    git2::Error,
>) {
    t.get_path(std::path::Path::new(path))?.to_object(repo)
}

/// Relies on git2::Tree::iter: the direct entries of a tree, with name,
/// file mode, and whether the entry names a subtree.
#[verifier::external_body]
pub fn tree_entries(t: &git2::Tree) -> (r: Vec<TreeEntryInfo>) {
    t.iter().map(|e| TreeEntryInfo {
        name: String::from_utf8_lossy(e.name_bytes()).into_owned(),
        mode: e.filemode(),
        is_tree: e.kind() == Some(git2::ObjectType::Tree),
    }).collect()
}

/// Relies on git2::Blob::is_binary: the store's binary heuristic.
#[verifier::external_body]
pub fn blob_is_binary(b: &git2::Blob) -> (r: bool) {
    b.is_binary()
}

/// Relies on git2::Blob::content: the blob's bytes.
#[verifier::external_body]
pub fn blob_bytes(b: &git2::Blob) -> (r: Vec<u8>) {
    b.content().to_vec()
}

/// Relies on git2::Error::message.
#[verifier::external_body]
pub fn error_message(e: &git2::Error) -> (r: String) {
    e.message().to_owned()
}

/// What decoding bytes as text yields. Relies on std's str::from_utf8: for
/// ASCII bytes the text holds exactly those characters.
#[verifier::external_body]
pub fn utf8_text(bytes: &[u8]) -> (r: Option<String>)
    ensures
        (forall|i: int| 0 <= i < bytes@.len() ==> bytes@[i] < 128) ==> r is Some && r->Some_0@
            == bytes@.map_values(|b: u8| b as char),
{
    std::str::from_utf8(bytes).ok().map(|s| s.to_owned())
}

/// What a tag reference points at, as plain data.
pub enum TagTarget {
    Annotated { tagger: Option<crate::model::Ident>, message: String },
    Lightweight { committer: crate::model::Ident },
    Other,
}

/// Relies on git2::Repository::tag_foreach: every reference in the tag
/// namespace, as its target id in hex and its full reference name.
#[verifier::external_body]
pub fn tag_refs(repo: &git2::Repository) -> (r: Result<Vec<(String, String)>, git2::Error>) {
    let mut out: Vec<(String, String)> = Vec::new();
    repo.tag_foreach(|oid, name| {
        out.push((oid.to_string(), String::from_utf8_lossy(name).into_owned()));
        true
    })?;
    Ok(out)
}

/// Relies on git2::Repository::find_object, git2::Object::kind, and the tag
/// and commit accessors: what the id names — an annotated tag with its
/// tagger and message, a commit (a lightweight tag's target), or something
/// else.
#[verifier::external_body]
pub fn find_tag_target(repo: &git2::Repository, oid_hex: &str) -> (r: Result<
    TagTarget,
    git2::Error,
>) {
    let obj = repo.find_object(git2::Oid::from_str(oid_hex)?, None)?;
    Ok(match obj.kind() {
        Some(git2::ObjectType::Tag) => {
            let t = obj.as_tag().unwrap();
            TagTarget::Annotated {
                tagger: t.tagger().map(|s| signature_info(&s)),
                message: t.message_bytes().map(|m| String::from_utf8_lossy(m).into_owned())
                    .unwrap_or_default(),
            }
        },
        Some(git2::ObjectType::Commit) => TagTarget::Lightweight {
            committer: signature_info(&obj.as_commit().unwrap().committer()),
        },
        _ => TagTarget::Other,
    })
}

/// Relies on git2::Object::peel_to_commit after find_object: the committer
/// signature of the commit an annotated tag ultimately points at, used when
/// the tag records no tagger.
#[verifier::external_body]
pub fn tag_fallback_committer(repo: &git2::Repository, oid_hex: &str) -> (r: Result<
    crate::model::Ident,
    git2::Error,
>) {
    let obj = repo.find_object(git2::Oid::from_str(oid_hex)?, None)?;
    Ok(signature_info(&obj.peel_to_commit()?.committer()))
}

/// Relies on git2::Repository::branches with the local filter: each local
/// branch's name and the id of the commit at its tip.
#[verifier::external_body]
pub fn local_branches(repo: &git2::Repository) -> (r: Result<Vec<BranchInfo>, git2::Error>) {
    let mut out: Vec<BranchInfo> = Vec::new();
    for item in repo.branches(Some(git2::BranchType::Local))? {
        let (branch, _) = item?;
        let name = String::from_utf8_lossy(branch.name_bytes()?).into_owned();
        let tip_id = branch.get().peel_to_commit()?.id().to_string();
        out.push(BranchInfo { name, tip_id });
    }
    Ok(out)
}

/// Relies on git2::Object::describe with tag candidates only and zero
/// abbreviation: the exact tag name when the commit is a tag's target.
#[verifier::external_body]
pub fn commit_tag_name(c: &git2::Commit) -> (r: Option<String>) {
    let mut opts = git2::DescribeOptions::new();
    opts.describe_tags().max_candidates_tags(0);
    let descr = c.as_object().describe(&opts).ok()?;
    let mut fmt = git2::DescribeFormatOptions::new();
    fmt.abbreviated_size(0);
    descr.format(Some(&fmt)).ok()
}

/// Relies on git2::Repository::config and git2::Config::get_string: the
/// configured repository owner, empty when unset.
#[verifier::external_body]
pub fn repo_owner(repo: &git2::Repository) -> (r: String) {
    repo.config().and_then(|c| c.get_string("gitweb.owner")).unwrap_or_default()
}

} // verus!
