//! The request-level views: each public function here does for one page what
//! the route handler needs — it drives the trusted store interface and the
//! verified logic, and hands back plain data for rendering. A repository
//! handle and everything derived from it stay inside one request.
use crate::blob;
use crate::cursor;
use crate::diff;
use crate::errors::{Failure, WebError};
use crate::highlight;
use crate::model::{BranchInfo, CommitInfo, TreeEntryInfo};
use crate::pagination;
use crate::paths;
use crate::readme;
use crate::refs::{self, TagEntry};
use crate::resolver;
use crate::store;
use crate::text;
use vstd::prelude::*;

verus! {

/// One page of the commit log.
pub struct LogPage {
    pub commits: Vec<CommitInfo>,
    pub branch: String,
    pub next_page: Option<String>,
}

/// The repository landing page: the rendered README and a short preview of
/// recent commits.
pub struct RepoHome {
    pub readme_html: String,
    pub commits: Vec<CommitInfo>,
}

/// Branches and tags, the tags newest first.
pub struct RefsView {
    pub branches: Vec<BranchInfo>,
    pub tags: Vec<TagEntry>,
}

fn store_failure(e: &git2::Error) -> (r: Failure)
    ensures
        r.kind is StoreError,
{
    Failure { kind: WebError::StoreError, message: store::error_message(e) }
}

fn invalid_ref_failure(e: &git2::Error) -> (r: Failure)
    ensures
        r.kind is InvalidReference,
{
    Failure { kind: WebError::InvalidReference, message: store::error_message(e) }
}

/// Admits or refuses an opened repository, exactly as the resolution rules
/// say: a path outside the root is `Forbidden`; a path that did not resolve,
/// a repository that did not open, and one without the export marker are all
/// the same `NotFound`.
pub fn admit_repository(
    root: &str,
    canonical: Option<&String>,
    opened: Option<git2::Repository>,
    marker_exists: bool,
) -> (r: Result<git2::Repository, Failure>)
    ensures
        r is Ok <==> resolver::spec_resolve(
            root@,
            match canonical {
                Some(p) => Some(p@),
                None => None,
            },
            opened is Some,
            marker_exists,
        ) is Ok,
        r is Err ==> r->Err_0.kind == resolver::spec_resolve(
            root@,
            match canonical {
                Some(p) => Some(p@),
                None => None,
            },
            opened is Some,
            marker_exists,
        )->Err_0,
{
    match resolver::resolve_decision(root, canonical, opened.is_some(), marker_exists) {
        Ok(()) => match opened {
            Some(repo) => Ok(repo),
            None => {
                assert(false);
                Err(Failure::repo_not_found())
            },
        },
        Err(f) => Err(f),
    }
}

/// Opens the repository a canonical candidate path names; with no canonical
/// path there is nothing to open.
pub fn open_candidate(canonical: Option<&String>) -> (r: Option<git2::Repository>)
    ensures
        canonical is None ==> r is None,
{
    match canonical {
        Some(p) => store::open_repository(p.as_str()),
        None => None,
    }
}

/// The name a repository is shown under: the last component of its working
/// directory, or of its metadata directory for a bare repository.
pub fn repo_display_name(repo: &git2::Repository) -> (r: String) {
    let p = match store::repo_workdir(repo) {
        Some(w) => w,
        None => store::repo_gitdir(repo),
    };
    paths::file_name_of(p.as_str())
}

/// The committer signature at the head commit, which dates the repository's
/// last change.
pub fn repo_last_modified(repo: &git2::Repository) -> (r: Result<crate::model::Ident, Failure>)
    ensures
        r is Err ==> r->Err_0.kind is StoreError,
{
    let head = match store::repo_head(repo) {
        Ok(h) => h,
        Err(e) => {
            return Err(store_failure(&e));
        },
    };
    let commit = match store::reference_peel_to_commit(&head) {
        Ok(c) => c,
        Err(e) => {
            return Err(store_failure(&e));
        },
    };
    Ok(store::commit_info(&commit).committer)
}

/// Whether the commit actually changed `path`: its diff against every
/// parent — or against nothing, for a root commit — shows the path touched.
fn commit_touches_path(repo: &git2::Repository, c: &git2::Commit, path: &str) -> (r: Result<
    bool,
    Failure,
>)
    ensures
        r is Err ==> r->Err_0.kind is StoreError,
{
    let n = store::commit_parent_count(c);
    let tree = match store::commit_tree(c) {
        Ok(t) => t,
        Err(e) => {
            return Err(store_failure(&e));
        },
    };
    if n == 0 {
        let d = match store::diff_trees(repo, None, Some(&tree), Some(path)) {
            Ok(d) => d,
            Err(e) => {
                return Err(store_failure(&e));
            },
        };
        let changed = match store::diff_files_changed(&d) {
            Ok(v) => v,
            Err(e) => {
                return Err(store_failure(&e));
            },
        };
        return Ok(changed > 0);
    }
    let mut i: usize = 0;
    while i < n
        invariant
            0 <= i <= n,
        decreases n - i,
    {
        let parent = match store::commit_parent(c, i) {
            Ok(p) => p,
            Err(e) => {
                return Err(store_failure(&e));
            },
        };
        let ptree = match store::commit_tree(&parent) {
            Ok(t) => t,
            Err(e) => {
                return Err(store_failure(&e));
            },
        };
        let d = match store::diff_trees(repo, Some(&ptree), Some(&tree), Some(path)) {
            Ok(d) => d,
            Err(e) => {
                return Err(store_failure(&e));
            },
        };
        let changed = match store::diff_files_changed(&d) {
            Ok(v) => v,
            Err(e) => {
                return Err(store_failure(&e));
            },
        };
        if changed == 0 {
            return Ok(false);
        }
        i = i + 1;
    }
    Ok(true)
}

/// The most recent commit, walking from `spec`, whose diff shows `path` as
/// changed; nothing when no commit touched it, which is a valid empty state.
pub fn last_commit_for(repo: &git2::Repository, refspec: &str, path: &str) -> (r: Result<
    Option<CommitInfo>,
    Failure,
>)
    ensures
        r is Err ==> r->Err_0.kind is InvalidReference || r->Err_0.kind is StoreError,
{
    let start = match store::revparse_object(repo, refspec) {
        Ok(o) => o,
        Err(e) => {
            return Err(invalid_ref_failure(&e));
        },
    };
    let commit = match store::object_peel_to_commit(&start) {
        Ok(c) => c,
        Err(e) => {
            return Err(invalid_ref_failure(&e));
        },
    };
    let head_id = store::commit_id_hex(&commit);
    let ids = match store::walk_commit_ids(repo, head_id.as_str()) {
        Ok(v) => v,
        Err(e) => {
            return Err(store_failure(&e));
        },
    };
    let n = ids.len();
    let mut i: usize = 0;
    while i < n
        invariant
            0 <= i <= n,
            n == ids@.len(),
        decreases n - i,
    {
        match store::find_commit_by_hex(repo, ids[i].as_str()) {
            Ok(c) => {
                let touches = commit_touches_path(repo, &c, path)?;
                if touches {
                    return Ok(Some(store::commit_info(&c)));
                }
            },
            Err(_) => (),
        }
        i = i + 1;
    }
    Ok(None)
}

/// The revision specifier a request walks from: the one it names, or the
/// head by default.
fn chosen_spec(refspec: Option<&String>) -> (r: String)
    ensures
        refspec is Some ==> r@ == refspec->Some_0@,
        refspec is None ==> r@ == "HEAD"@,
{
    match refspec {
        Some(s) => (*s).clone(),
        None => "HEAD".to_owned(),
    }
}

fn branch_label(repo: &git2::Repository, refspec: Option<&String>) -> (r: String)
    ensures
        refspec is Some ==> r@ == refspec->Some_0@,
{
    match refspec {
        Some(s) => (*s).clone(),
        None => {
            match store::repo_head(repo) {
                Ok(h) => store::reference_shorthand(&h),
                Err(_) => "HEAD".to_owned(),
            }
        },
    }
}

/// Walks the history for one log page. The page holds at most `per_page`
/// commits; a next-page cursor is handed out exactly when more commits were
/// walked than the page holds, and it advances the given specifier's depth
/// by the page size. A shallow clone yields only its head commit and never a
/// next page. An empty repository is `EmptyRepository`; a specifier the
/// store cannot resolve is `InvalidReference`.
pub fn repo_log(
    repo: &git2::Repository,
    refspec: Option<&String>,
    path_filter: Option<&String>,
    per_page: usize,
) -> (r: Result<LogPage, Failure>)
    requires
        1 <= per_page,
    ensures
        r is Err ==> r->Err_0.kind is EmptyRepository || r->Err_0.kind is InvalidReference
            || r->Err_0.kind is StoreError,
        r is Ok ==> r->Ok_0.commits@.len() <= per_page,
        r is Ok && r->Ok_0.next_page is Some ==> r->Ok_0.next_page->Some_0@
            == cursor::spec_format_cursor(
            cursor::spec_cursor_base(
                match refspec {
                    Some(s) => s@,
                    None => "HEAD"@,
                },
            ),
            cursor::spec_next_depth(
                cursor::spec_cursor_depth(
                    match refspec {
                        Some(s) => s@,
                        None => "HEAD"@,
                    },
                ),
                per_page as nat,
            ),
        ),
{
    match store::repo_is_empty(repo) {
        Ok(true) => {
            return Err(
                Failure {
                    kind: WebError::EmptyRepository,
                    message: "This repository is empty.".to_owned(),
                },
            );
        },
        Ok(false) => (),
        Err(e) => {
            return Err(store_failure(&e));
        },
    }
    let branch = branch_label(repo, refspec);
    if store::repo_is_shallow(repo) {
        let head = match store::repo_head(repo) {
            Ok(h) => h,
            Err(e) => {
                return Err(store_failure(&e));
            },
        };
        let commit = match store::reference_peel_to_commit(&head) {
            Ok(c) => c,
            Err(e) => {
                return Err(store_failure(&e));
            },
        };
        let mut commits: Vec<CommitInfo> = Vec::new();
        commits.push(store::commit_info(&commit));
        return Ok(LogPage { commits, branch, next_page: None });
    }
    let spec_str = chosen_spec(refspec);
    let start = match store::revparse_object(repo, spec_str.as_str()) {
        Ok(o) => o,
        Err(e) => {
            return Err(invalid_ref_failure(&e));
        },
    };
    let start_commit = match store::object_peel_to_commit(&start) {
        Ok(c) => c,
        Err(e) => {
            return Err(invalid_ref_failure(&e));
        },
    };
    let start_id = store::commit_id_hex(&start_commit);
    let walked = match store::walk_commit_ids(repo, start_id.as_str()) {
        Ok(v) => v,
        Err(e) => {
            return Err(store_failure(&e));
        },
    };
    let selected: Vec<String> = match path_filter {
        Some(path) => {
            let mut kept: Vec<String> = Vec::new();
            let n = walked.len();
            let mut i: usize = 0;
            while i < n
                invariant
                    0 <= i <= n,
                    n == walked@.len(),
                decreases n - i,
            {
                match store::find_commit_by_hex(repo, walked[i].as_str()) {
                    Ok(c) => {
                        let touches = commit_touches_path(repo, &c, path.as_str())?;
                        if touches {
                            kept.push(walked[i].clone());
                        }
                    },
                    Err(_) => (),
                }
                i = i + 1;
            }
            kept
        },
        None => walked,
    };
    let (page_ids, has_next) = pagination::paginate(&selected, per_page);
    let next_page = if has_next {
        Some(cursor::next_cursor(spec_str.as_str(), per_page))
    } else {
        None
    };
    let mut commits: Vec<CommitInfo> = Vec::new();
    let m = page_ids.len();
    let mut j: usize = 0;
    proof {
        assert(page_ids@.len() <= per_page);
    }
    while j < m
        invariant
            0 <= j <= m,
            m == page_ids@.len(),
            m <= per_page,
            commits@.len() <= j,
        decreases m - j,
    {
        match store::find_commit_by_hex(repo, page_ids[j].as_str()) {
            Ok(c) => {
                commits.push(store::commit_info(&c));
            },
            Err(_) => (),
        }
        j = j + 1;
    }
    Ok(LogPage { commits, branch, next_page })
}

/// The revision specifier probing one README candidate at the head commit.
fn readme_probe(name: &str) -> (r: String)
    ensures
        r@ == "HEAD:"@ + name@,
{
    let mut out = "HEAD:".to_owned();
    out.append(name);
    out
}

/// The README as HTML: the candidates are probed in their fixed order
/// against the head tree, and the first hit is rendered by its format. A
/// candidate name that resolves to something other than a blob ends the
/// cascade with an empty README.
pub fn readme_html(repo: &git2::Repository) -> (r: String) {
    let candidates = readme::readme_candidates();
    let mut found: Vec<Option<String>> = Vec::new();
    let n = candidates.len();
    let mut i: usize = 0;
    while i < n
        invariant
            0 <= i <= n,
            n == candidates@.len(),
            found@.len() == i,
        decreases n - i,
    {
        let probe = readme_probe(candidates[i]);
        let item: Option<String> = match store::revparse_object(repo, probe.as_str()) {
            Ok(obj) => {
                match store::object_peel_to_blob(&obj) {
                    Ok(b) => {
                        let bytes = store::blob_bytes(&b);
                        match store::utf8_text(bytes.as_slice()) {
                            Some(s) => Some(s),
                            None => Some(String::new()),
                        }
                    },
                    Err(_) => {
                        return String::new();
                    },
                }
            },
            Err(_) => None,
        };
        found.push(item);
        i = i + 1;
    }
    match readme::choose_readme(&found) {
        Some((idx, content)) => {
            let format = readme::readme_format_at(idx);
            readme::render_readme(format, content.as_str())
        },
        None => String::new(),
    }
}

/// The landing page: the README and a three-commit preview of the history.
pub fn repo_home(repo: &git2::Repository, refspec: Option<&String>) -> (r: Result<
    RepoHome,
    Failure,
>)
    ensures
        r is Err ==> r->Err_0.kind is InvalidReference || r->Err_0.kind is StoreError,
        r is Ok ==> r->Ok_0.commits@.len() <= 3,
{
    let html = readme_html(repo);
    if store::repo_is_shallow(repo) {
        let head = match store::repo_head(repo) {
            Ok(h) => h,
            Err(e) => {
                return Err(store_failure(&e));
            },
        };
        let commit = match store::reference_peel_to_commit(&head) {
            Ok(c) => c,
            Err(e) => {
                return Err(store_failure(&e));
            },
        };
        let mut commits: Vec<CommitInfo> = Vec::new();
        commits.push(store::commit_info(&commit));
        return Ok(RepoHome { readme_html: html, commits });
    }
    let spec_str = chosen_spec(refspec);
    let start = match store::revparse_object(repo, spec_str.as_str()) {
        Ok(o) => o,
        Err(e) => {
            return Err(invalid_ref_failure(&e));
        },
    };
    let start_commit = match store::object_peel_to_commit(&start) {
        Ok(c) => c,
        Err(e) => {
            return Err(invalid_ref_failure(&e));
        },
    };
    let start_id = store::commit_id_hex(&start_commit);
    let walked = match store::walk_commit_ids(repo, start_id.as_str()) {
        Ok(v) => v,
        Err(e) => {
            return Err(store_failure(&e));
        },
    };
    let (page_ids, _more) = pagination::paginate(&walked, 3);
    let mut commits: Vec<CommitInfo> = Vec::new();
    let m = page_ids.len();
    let mut j: usize = 0;
    while j < m
        invariant
            0 <= j <= m,
            m == page_ids@.len(),
            m <= 3,
            commits@.len() <= j,
        decreases m - j,
    {
        match store::find_commit_by_hex(repo, page_ids[j].as_str()) {
            Ok(c) => commits.push(store::commit_info(&c)),
            Err(_) => (),
        }
        j = j + 1;
    }
    Ok(RepoHome { readme_html: html, commits })
}

/// The badge linking a tagged commit to its tag page.
pub open spec fn spec_tag_badge(repo: Seq<char>, tag: Seq<char>) -> Seq<char> {
    "<a href=\"/"@ + repo + "/refs/"@ + tag + "\" class=\"badge tag\">"@ + tag + "</a>"@
}

/// The badge linking a branch tip to that branch's log.
pub open spec fn spec_branch_badge(repo: Seq<char>, name: Seq<char>) -> Seq<char> {
    " <a href=\"/"@ + repo + "/log/"@ + name + "\" class=\"badge branch\">"@ + name + "</a>"@
}

/// One badge per branch whose tip is the commit, in branch order, from
/// position `i` on.
pub open spec fn spec_branch_badges(
    repo: Seq<char>,
    branches: Seq<BranchInfo>,
    commit_id: Seq<char>,
    i: int,
) -> Seq<char>
    decreases branches.len() - i,
{
    if i < 0 || i >= branches.len() {
        Seq::empty()
    } else {
        (if branches[i].tip_id@ == commit_id {
            spec_branch_badge(repo, branches[i].name@)
        } else {
            Seq::empty()
        }) + spec_branch_badges(repo, branches, commit_id, i + 1)
    }
}

/// The badge row of a commit page: a tag badge when the commit is a tag's
/// target, then one badge for every local branch whose tip it is.
pub fn badges_html(
    repo_name: &str,
    tag: Option<&String>,
    branches: &Vec<BranchInfo>,
    commit_id: &str,
) -> (r: String)
    ensures
        r@ == (match tag {
            Some(t) => spec_tag_badge(repo_name@, t@),
            None => Seq::<char>::empty(),
        }) + spec_branch_badges(repo_name@, branches@, commit_id@, 0),
{
    let ghost tag_part = match tag {
        Some(t) => spec_tag_badge(repo_name@, t@),
        None => Seq::<char>::empty(),
    };
    let mut out = String::new();
    match tag {
        Some(t) => {
            out.append("<a href=\"/");
            out.append(repo_name);
            out.append("/refs/");
            out.append(t.as_str());
            out.append("\" class=\"badge tag\">");
            out.append(t.as_str());
            out.append("</a>");
            proof {
                assert(out@ =~= tag_part);
            }
        },
        None => (),
    }
    let n = branches.len();
    let mut i: usize = 0;
    proof {
        assert(out@ == tag_part);
    }
    while i < n
        invariant
            0 <= i <= n,
            n == branches@.len(),
            tag_part + spec_branch_badges(repo_name@, branches@, commit_id@, 0) == out@
                + spec_branch_badges(repo_name@, branches@, commit_id@, i as int),
        decreases n - i,
    {
        if text::str_eq(branches[i].tip_id.as_str(), commit_id) {
            let mut piece = " <a href=\"/".to_owned();
            piece.append(repo_name);
            piece.append("/log/");
            piece.append(branches[i].name.as_str());
            piece.append("\" class=\"badge branch\">");
            piece.append(branches[i].name.as_str());
            piece.append("</a>");
            proof {
                assert(piece@ =~= spec_branch_badge(repo_name@, branches@[i as int].name@));
            }
            out.append(piece.as_str());
        }
        proof {
            assert(spec_branch_badges(repo_name@, branches@, commit_id@, i as int) == (if branches@[i as int].tip_id@
                == commit_id@ {
                spec_branch_badge(repo_name@, branches@[i as int].name@)
            } else {
                Seq::<char>::empty()
            }) + spec_branch_badges(repo_name@, branches@, commit_id@, i + 1));
            assert(tag_part + spec_branch_badges(repo_name@, branches@, commit_id@, 0) =~= out@
                + spec_branch_badges(repo_name@, branches@, commit_id@, i + 1));
        }
        i = i + 1;
    }
    proof {
        assert(spec_branch_badges(repo_name@, branches@, commit_id@, n as int) =~= Seq::<
            char,
        >::empty());
        assert(out@ =~= tag_part + spec_branch_badges(repo_name@, branches@, commit_id@, 0));
    }
    out
}

/// A commit page: the commit, the store's delta summary after its rename
/// pass, the highlighted unified patch, and the badge row.
pub struct CommitView {
    pub commit: CommitInfo,
    pub deltas: Vec<diff::Delta>,
    pub patch_html: String,
    pub badges: String,
}

/// Builds the commit page: the commit is diffed against its first parent —
/// against nothing for a root commit, so every tracked file is added — with
/// the store's similarity-based rename detection applied (every find option
/// on); the delta summary and the patch are both read from the diff after
/// that pass, so renames appear as renames. The patch is then highlighted
/// for themes.
pub fn repo_commit(
    repo: &git2::Repository,
    commit_spec: &str,
    repo_name: &str,
    syntaxes: &syntect::parsing::SyntaxSet,
) -> (r: Result<CommitView, Failure>)
    ensures
        r is Err ==> r->Err_0.kind is InvalidReference || r->Err_0.kind is StoreError,
{
    let obj = match store::revparse_object(repo, commit_spec) {
        Ok(o) => o,
        Err(e) => {
            return Err(invalid_ref_failure(&e));
        },
    };
    let commit = match store::object_peel_to_commit(&obj) {
        Ok(c) => c,
        Err(e) => {
            return Err(invalid_ref_failure(&e));
        },
    };
    let tree = match store::commit_tree(&commit) {
        Ok(t) => t,
        Err(e) => {
            return Err(store_failure(&e));
        },
    };
    let parent_tree = if store::commit_parent_count(&commit) > 0 {
        let parent = match store::commit_parent(&commit, 0) {
            Ok(p) => p,
            Err(e) => {
                return Err(store_failure(&e));
            },
        };
        match store::commit_tree(&parent) {
            Ok(t) => Some(t),
            Err(e) => {
                return Err(store_failure(&e));
            },
        }
    } else {
        None
    };
    let mut d = match store::diff_trees(repo, parent_tree.as_ref(), Some(&tree), None) {
        Ok(d) => d,
        Err(e) => {
            return Err(store_failure(&e));
        },
    };
    match store::diff_find_similar(&mut d) {
        Ok(()) => (),
        Err(e) => {
            return Err(store_failure(&e));
        },
    }
    let deltas = store::diff_delta_records(&d);
    let lines = store::diff_patch_lines(&d);
    let patch = diff::patch_text(&lines);
    let diff_syntax = match highlight::find_syntax_by_name(syntaxes, "Diff") {
        Some(syn) => Some(syn),
        None => highlight::plain_text_syntax(syntaxes),
    };
    let patch_html = match diff_syntax {
        Some(syn) => highlight::highlight_html(syntaxes, syn, patch.as_str()),
        None => text::escape_html(patch.as_str()),
    };
    let tag = store::commit_tag_name(&commit);
    let branches = match store::local_branches(repo) {
        Ok(b) => b,
        Err(e) => {
            return Err(store_failure(&e));
        },
    };
    let commit_id = store::commit_id_hex(&commit);
    let badges = badges_html(repo_name, tag.as_ref(), &branches, commit_id.as_str());
    Ok(CommitView { commit: store::commit_info(&commit), deltas, patch_html, badges })
}

/// What a tag page shows: the annotated tag, or the commit the name really
/// is, which the caller answers with a permanent redirect.
pub enum TagView {
    Annotated { name: String, tagger: crate::model::Ident, message: String },
    CommitRedirect { location: String },
}

/// Resolves a tag name: an annotated tag yields its detail view; any other
/// commit-ish name redirects permanently to the commit page.
pub fn repo_tag(repo: &git2::Repository, repo_name: &str, tag_name: &str) -> (r: Result<
    TagView,
    Failure,
>)
    ensures
        r is Err ==> r->Err_0.kind is InvalidReference || r->Err_0.kind is NotFound
            || r->Err_0.kind is StoreError,
        r is Ok && r->Ok_0 is CommitRedirect ==> r->Ok_0->CommitRedirect_location@ == "/"@
            + repo_name@ + "/commit/"@ + tag_name@,
{
    let obj = match store::revparse_object(repo, tag_name) {
        Ok(o) => o,
        Err(e) => {
            return Err(invalid_ref_failure(&e));
        },
    };
    match store::object_peel_to_tag(&obj) {
        Ok(t) => {
            match store::find_tag_target(repo, store::tag_id_hex(&t).as_str()) {
                Ok(store::TagTarget::Annotated { tagger, message }) => {
                    let who = match tagger {
                        Some(w) => w,
                        None => match store::tag_fallback_committer(
                            repo,
                            store::tag_id_hex(&t).as_str(),
                        ) {
                            Ok(w) => w,
                            Err(e) => {
                                return Err(store_failure(&e));
                            },
                        },
                    };
                    Ok(TagView::Annotated { name: tag_name.to_owned(), tagger: who, message })
                },
                Ok(_) => Err(
                    Failure {
                        kind: WebError::NotFound,
                        message: "This page does not exist.".to_owned(),
                    },
                ),
                Err(e) => Err(store_failure(&e)),
            }
        },
        Err(_) => {
            let mut location = "/".to_owned();
            location.append(repo_name);
            location.append("/commit/");
            location.append(tag_name);
            Ok(TagView::CommitRedirect { location })
        },
    }
}

/// A resolved object path: a directory listing, or a rendered file.
pub enum PathView {
    Listing { entries: Vec<TreeEntryInfo>, last_change: Option<CommitInfo> },
    File { html: String, last_change: Option<CommitInfo> },
}

/// Resolves an object path through the tree of the named revision and
/// renders it: a subtree becomes a listing, a text blob is highlighted and
/// wrapped in per-line anchors whose permalink embeds the resolved commit
/// id, and binary content is shown inline only through its MIME kind.
pub fn repo_file(
    repo: &git2::Repository,
    refspec: Option<&String>,
    object_path: Option<&String>,
    repo_name: &str,
    syntaxes: &syntect::parsing::SyntaxSet,
) -> (r: Result<PathView, Failure>)
    ensures
        r is Err ==> r->Err_0.kind is EmptyRepository || r->Err_0.kind is InvalidReference
            || r->Err_0.kind is NotFound || r->Err_0.kind is UnsupportedContent || r->Err_0.kind
            is StoreError,
{
    match store::repo_is_empty(repo) {
        Ok(true) => {
            return Err(
                Failure {
                    kind: WebError::EmptyRepository,
                    message: "This repository is empty.".to_owned(),
                },
            );
        },
        Ok(false) => (),
        Err(e) => {
            return Err(store_failure(&e));
        },
    }
    let spec_str = branch_label(repo, refspec);
    let obj = match store::revparse_object(repo, spec_str.as_str()) {
        Ok(o) => o,
        Err(e) => {
            return Err(invalid_ref_failure(&e));
        },
    };
    let commit = match store::object_peel_to_commit(&obj) {
        Ok(c) => c,
        Err(e) => {
            return Err(invalid_ref_failure(&e));
        },
    };
    let tree = match store::commit_tree(&commit) {
        Ok(t) => t,
        Err(e) => {
            return Err(store_failure(&e));
        },
    };
    let path: String = match object_path {
        Some(p) => (*p).clone(),
        None => String::new(),
    };
    let target = match object_path {
        Some(p) => {
            match store::tree_lookup(repo, &tree, p.as_str()) {
                Ok(o) => o,
                Err(_) => {
                    return Err(
                        Failure {
                            kind: WebError::NotFound,
                            message: "This page does not exist.".to_owned(),
                        },
                    );
                },
            }
        },
        None => {
            let entries = store::tree_entries(&tree);
            let last_change = last_commit_for(repo, spec_str.as_str(), path.as_str())?;
            return Ok(PathView::Listing { entries, last_change });
        },
    };
    match store::object_into_tree(target) {
        Ok(subtree) => {
            let entries = store::tree_entries(&subtree);
            let last_change = last_commit_for(repo, spec_str.as_str(), path.as_str())?;
            Ok(PathView::Listing { entries, last_change })
        },
        Err(not_tree) => {
            let blob_obj = match store::object_peel_to_blob(&not_tree) {
                Ok(b) => b,
                Err(_) => {
                    return Err(
                        Failure {
                            kind: WebError::UnsupportedContent,
                            message: "Cannot display this object.".to_owned(),
                        },
                    );
                },
            };
            let ext = paths::extension_of(path.as_str());
            let is_binary = store::blob_is_binary(&blob_obj);
            let html: String = if is_binary {
                let basetype = match blob::mime_from_extension(ext.as_str()) {
                    Some(pair) => Some(pair.0),
                    None => None,
                };
                let mode = blob::blob_render_mode(true, basetype.as_ref());
                match mode {
                    blob::BlobRender::Image | blob::BlobRender::Audio | blob::BlobRender::Video => {
                        blob::media_html(mode, repo_name, spec_str.as_str(), path.as_str())
                    },
                    _ => "Cannot display binary file.".to_owned(),
                }
            } else {
                let bytes = store::blob_bytes(&blob_obj);
                let content = match store::utf8_text(bytes.as_slice()) {
                    Some(c) => c,
                    None => {
                        return Err(
                            Failure {
                                kind: WebError::StoreError,
                                message: "The file is not valid text.".to_owned(),
                            },
                        );
                    },
                };
                let syntax = match highlight::find_syntax_by_extension(syntaxes, ext.as_str()) {
                    Some(syn) => Some(syn),
                    None => highlight::plain_text_syntax(syntaxes),
                };
                let highlighted = match syntax {
                    Some(syn) => highlight::highlight_html(syntaxes, syn, content.as_str()),
                    None => text::escape_html(content.as_str()),
                };
                let lines = text::split_lines(highlighted.as_str());
                let commit_id = store::commit_id_hex(&commit);
                let mut prefix = "/".to_owned();
                prefix.append(repo_name);
                prefix.append("/tree/");
                prefix.append(commit_id.as_str());
                prefix.append("/item/");
                prefix.append(path.as_str());
                blob::number_lines(&lines, prefix.as_str())
            };
            let last_change = last_commit_for(repo, spec_str.as_str(), path.as_str())?;
            Ok(PathView::File { html, last_change })
        },
    }
}

/// The exact bytes of a blob, with a best-effort content type, for the raw
/// endpoint that backs inline media and downloads.
pub struct RawBlob {
    pub bytes: Vec<u8>,
    pub mime: String,
}

pub fn repo_file_raw(repo: &git2::Repository, refspec: &str, object_path: &str) -> (r: Result<
    RawBlob,
    Failure,
>)
    ensures
        r is Err ==> r->Err_0.kind is InvalidReference || r->Err_0.kind is NotFound
            || r->Err_0.kind is StoreError,
{
    let obj = match store::revparse_object(repo, refspec) {
        Ok(o) => o,
        Err(e) => {
            return Err(invalid_ref_failure(&e));
        },
    };
    let commit = match store::object_peel_to_commit(&obj) {
        Ok(c) => c,
        Err(e) => {
            return Err(invalid_ref_failure(&e));
        },
    };
    let tree = match store::commit_tree(&commit) {
        Ok(t) => t,
        Err(e) => {
            return Err(store_failure(&e));
        },
    };
    let blob_obj = match store::tree_lookup(repo, &tree, object_path) {
        Ok(o) => {
            match store::object_peel_to_blob(&o) {
                Ok(b) => b,
                Err(e) => {
                    return Err(no_such_file(&e));
                },
            }
        },
        Err(e) => {
            return Err(no_such_file(&e));
        },
    };
    let ext = paths::extension_of(object_path);
    let essence = match blob::mime_from_extension(ext.as_str()) {
        Some(pair) => Some(pair.1),
        None => None,
    };
    let is_binary = store::blob_is_binary(&blob_obj);
    let mime = blob::raw_mime(essence, is_binary);
    Ok(RawBlob { bytes: store::blob_bytes(&blob_obj), mime })
}

fn no_such_file(e: &git2::Error) -> (r: Failure)
    ensures
        r.kind is NotFound,
{
    let mut message = "There is no such file in this revision of the repository: ".to_owned();
    let detail = store::error_message(e);
    message.append(detail.as_str());
    Failure { kind: WebError::NotFound, message }
}

/// Lists the local branches and every tag, the tags newest first by their
/// signature timestamps. An annotated tag carries its tagger — or, when none
/// was recorded, the committer of the commit it points at — and its message;
/// a lightweight tag carries the committer and an empty message.
pub fn repo_refs(repo: &git2::Repository) -> (r: Result<RefsView, Failure>)
    ensures
        r is Err ==> r->Err_0.kind is EmptyRepository || r->Err_0.kind is StoreError,
        r is Ok ==> forall|i: int, j: int|
            0 <= i < j < r->Ok_0.tags@.len() ==> refs::tag_ge(
                #[trigger] r->Ok_0.tags@[i],
                #[trigger] r->Ok_0.tags@[j],
            ),
{
    match store::repo_is_empty(repo) {
        Ok(true) => {
            return Err(
                Failure {
                    kind: WebError::EmptyRepository,
                    message: "This repository is empty.".to_owned(),
                },
            );
        },
        Ok(false) => (),
        Err(e) => {
            return Err(store_failure(&e));
        },
    }
    let branches = match store::local_branches(repo) {
        Ok(b) => b,
        Err(e) => {
            return Err(store_failure(&e));
        },
    };
    let pairs = match store::tag_refs(repo) {
        Ok(p) => p,
        Err(e) => {
            return Err(store_failure(&e));
        },
    };
    let mut tags: Vec<TagEntry> = Vec::new();
    let n = pairs.len();
    let mut i: usize = 0;
    while i < n
        invariant
            0 <= i <= n,
            n == pairs@.len(),
        decreases n - i,
    {
        if !text::starts_with_str(pairs[i].1.as_str(), "refs/tags/") {
            i = i + 1;
            continue ;
        }
        proof {
            reveal_strlit("refs/tags/");
        }
        let name = refs::tag_short_name(pairs[i].1.as_str());
        match store::find_tag_target(repo, pairs[i].0.as_str()) {
            Ok(store::TagTarget::Annotated { tagger, message }) => {
                let who = match tagger {
                    Some(w) => w,
                    None => {
                        match store::tag_fallback_committer(repo, pairs[i].0.as_str()) {
                            Ok(w) => w,
                            Err(e) => {
                                return Err(store_failure(&e));
                            },
                        }
                    },
                };
                let link = refs::tag_link(name.as_str(), true);
                tags.push(TagEntry { link, name, tagger: who, message });
            },
            Ok(store::TagTarget::Lightweight { committer }) => {
                let link = refs::tag_link(name.as_str(), false);
                tags.push(
                    TagEntry { link, name, tagger: committer, message: String::new() },
                );
            },
            Ok(store::TagTarget::Other) => (),
            Err(e) => {
                return Err(store_failure(&e));
            },
        }
        i = i + 1;
    }
    let tags = refs::sort_tags_desc(tags);
    Ok(RefsView { branches, tags })
}

/// The commits of a log feed: one fixed page, newest first, with no cursor
/// exposed. An empty repository cannot be syndicated and fails with
/// `ServiceUnavailable` instead of redirecting.
pub fn repo_log_feed(repo: &git2::Repository, refspec: Option<&String>, per_page: usize) -> (r:
    Result<LogPage, Failure>)
    requires
        1 <= per_page,
    ensures
        r is Err ==> r->Err_0.kind is ServiceUnavailable || r->Err_0.kind is InvalidReference
            || r->Err_0.kind is StoreError,
        r is Ok ==> r->Ok_0.commits@.len() <= per_page,
        r is Ok ==> r->Ok_0.next_page is None,
{
    match store::repo_is_empty(repo) {
        Ok(true) => {
            return Err(
                Failure {
                    kind: WebError::ServiceUnavailable,
                    message: "Cannot show feed because there are no commits.".to_owned(),
                },
            );
        },
        Ok(false) => (),
        Err(e) => {
            return Err(store_failure(&e));
        },
    }
    let page = match repo_log(repo, refspec, None, per_page) {
        Ok(p) => p,
        Err(f) => {
            if matches!(f.kind, WebError::EmptyRepository) {
                return Err(
                    Failure {
                        kind: WebError::ServiceUnavailable,
                        message: "Cannot show feed because there are no commits.".to_owned(),
                    },
                );
            }
            return Err(f);
        },
    };
    Ok(LogPage { commits: page.commits, branch: page.branch, next_page: None })
}

/// The tags of a refs feed, newest first. An empty repository fails with
/// `ServiceUnavailable`.
pub fn repo_refs_feed(repo: &git2::Repository) -> (r: Result<RefsView, Failure>)
    ensures
        r is Err ==> r->Err_0.kind is ServiceUnavailable || r->Err_0.kind is StoreError,
        r is Ok ==> forall|i: int, j: int|
            0 <= i < j < r->Ok_0.tags@.len() ==> refs::tag_ge(
                #[trigger] r->Ok_0.tags@[i],
                #[trigger] r->Ok_0.tags@[j],
            ),
{
    match store::repo_is_empty(repo) {
        Ok(true) => {
            return Err(
                Failure {
                    kind: WebError::ServiceUnavailable,
                    message: "Cannot show feed because there is nothing here.".to_owned(),
                },
            );
        },
        Ok(false) => (),
        Err(e) => {
            return Err(store_failure(&e));
        },
    }
    match repo_refs(repo) {
        Ok(view) => Ok(view),
        Err(f) => {
            if matches!(f.kind, WebError::EmptyRepository) {
                Err(
                    Failure {
                        kind: WebError::ServiceUnavailable,
                        message: "Cannot show feed because there is nothing here.".to_owned(),
                    },
                )
            } else {
                Err(f)
            }
        },
    }
}

/// Access control for the plain git-transport files below a repository's
/// metadata directory: the canonicalized path must stay inside it and must
/// name a file.
pub fn git_data_access(gitdir: &str, canonical: Option<&String>, is_file: bool) -> (r: Result<
    (),
    Failure,
>)
    ensures
        canonical is None ==> r is Err && r->Err_0.kind is NotFound,
        canonical is Some && !paths::spec_path_within(gitdir@, canonical->Some_0@) ==> r is Err
            && r->Err_0.kind is Forbidden,
        canonical is Some && paths::spec_path_within(gitdir@, canonical->Some_0@) && !is_file ==> r
            is Err && r->Err_0.kind is NotFound,
        (canonical is Some && paths::spec_path_within(gitdir@, canonical->Some_0@) && is_file)
            <==> r is Ok,
{
    match canonical {
        None => Err(
            Failure { kind: WebError::NotFound, message: "This page does not exist.".to_owned() },
        ),
        Some(p) => {
            if !paths::path_within(gitdir, p.as_str()) {
                Err(
                    Failure {
                        kind: WebError::Forbidden,
                        message: "You do not have access to this file.".to_owned(),
                    },
                )
            } else if !is_file {
                Err(
                    Failure {
                        kind: WebError::NotFound,
                        message: "This page does not exist.".to_owned(),
                    },
                )
            } else {
                Ok(())
            }
        },
    }
}

} // verus!
