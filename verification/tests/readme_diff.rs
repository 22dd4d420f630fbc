//! The README cascade and the diff pipeline.
use mygit::diff::{find_renames, patch_text, tree_diff, DeltaKind, FileRecord, PatchLine};
use mygit::readme::{
    choose_readme, readme_candidates, readme_format_at, render_markdown, render_readme,
    ReadmeFormat,
};
use mygit::text::{escape_html, first_line, split_lines};

fn rec(path: &str, id: &str) -> FileRecord {
    FileRecord { path: path.to_string(), blob_id: id.to_string() }
}

#[test]
fn candidate_order_is_fixed() {
    let c = readme_candidates();
    assert_eq!(
        c,
        vec![
            "README",
            "README.txt",
            "README.md",
            "README.mdown",
            "README.markdown",
            "README.html",
            "README.htm",
        ]
    );
    assert_eq!(readme_format_at(0), ReadmeFormat::Plaintext);
    assert_eq!(readme_format_at(2), ReadmeFormat::Markdown);
    assert_eq!(readme_format_at(5), ReadmeFormat::Html);
}

/// A tree holding only `README.md` renders Markdown-derived HTML.
#[test]
fn markdown_readme_renders_as_html() {
    let mut found: Vec<Option<String>> = vec![None; 7];
    found[2] = Some(String::from("# Title"));
    let (idx, content) = choose_readme(&found).unwrap();
    assert_eq!(idx, 2);
    let html = render_readme(readme_format_at(idx), &content);
    assert_eq!(html, "<h1>Title</h1>\n");
    assert_eq!(render_markdown("# Title"), "<h1>Title</h1>\n");
}

/// With both `README` and `README.md` present, the plaintext `README` wins
/// and is HTML-escaped inside a preformatted block.
#[test]
fn plaintext_readme_wins_over_markdown() {
    let mut found: Vec<Option<String>> = vec![None; 7];
    found[0] = Some(String::from("a < b & c"));
    found[2] = Some(String::from("# Title"));
    let (idx, content) = choose_readme(&found).unwrap();
    assert_eq!(idx, 0);
    let html = render_readme(readme_format_at(idx), &content);
    assert_eq!(html, "<pre>a &lt; b &amp; c</pre>");
}

#[test]
fn html_readme_passes_through_and_none_is_empty() {
    let mut found: Vec<Option<String>> = vec![None; 7];
    found[5] = Some(String::from("<p>hi</p>"));
    let (idx, content) = choose_readme(&found).unwrap();
    assert_eq!(idx, 5);
    assert_eq!(render_readme(readme_format_at(idx), &content), "<p>hi</p>");
    let empty: Vec<Option<String>> = vec![None; 7];
    assert!(choose_readme(&empty).is_none());
}

#[test]
fn escaping_is_exact() {
    assert_eq!(escape_html("<b>\"x\" & 'y'</b>"), "&lt;b&gt;&quot;x&quot; &amp; 'y'&lt;/b&gt;");
    assert_eq!(escape_html("plain"), "plain");
}

/// A root commit diffed against nothing reports every tracked file as
/// `added`, never as `modified`.
#[test]
fn root_commit_diff_is_all_added() {
    let files = vec![rec("a.txt", "i1"), rec("dir/b.rs", "i2"), rec("c", "i3")];
    let deltas = tree_diff(None, &files);
    assert_eq!(deltas.len(), 3);
    for (i, d) in deltas.iter().enumerate() {
        assert_eq!(d.kind, DeltaKind::Added);
        assert_ne!(d.kind, DeltaKind::Modified);
        assert_eq!(d.new_path.as_deref(), Some(files[i].path.as_str()));
        assert!(d.old_path.is_none());
    }
}

#[test]
fn tree_diff_classifies_changes() {
    let old = vec![rec("keep", "k1"), rec("gone", "g1"), rec("edit", "e1")];
    let new = vec![rec("keep", "k1"), rec("edit", "e2"), rec("fresh", "f1")];
    let deltas = tree_diff(Some(&old), &new);
    let kinds: Vec<(DeltaKind, String)> = deltas
        .iter()
        .map(|d| {
            (
                d.kind,
                d.new_path.clone().or_else(|| d.old_path.clone()).unwrap(),
            )
        })
        .collect();
    assert_eq!(
        kinds,
        vec![
            (DeltaKind::Deleted, String::from("gone")),
            (DeltaKind::Modified, String::from("edit")),
            (DeltaKind::Added, String::from("fresh")),
        ]
    );
}

/// A file deleted at path A and an equal-content file added at path B merge
/// into exactly one rename entry A to B — not one add and one delete.
#[test]
fn equal_content_rename_is_detected() {
    let old = vec![rec("old/name.rs", "same-id")];
    let new = vec![rec("new/name.rs", "same-id")];
    let deltas = find_renames(tree_diff(Some(&old), &new));
    assert_eq!(deltas.len(), 1);
    let d = &deltas[0];
    assert_eq!(d.kind, DeltaKind::Renamed);
    assert_eq!(d.old_path.as_deref(), Some("old/name.rs"));
    assert_eq!(d.new_path.as_deref(), Some("new/name.rs"));
    assert_eq!(d.similarity, 100);
}

#[test]
fn rename_detection_leaves_distinct_content_alone() {
    let old = vec![rec("a", "id1")];
    let new = vec![rec("b", "id2")];
    let deltas = find_renames(tree_diff(Some(&old), &new));
    assert_eq!(deltas.len(), 2);
    assert_eq!(deltas[0].kind, DeltaKind::Deleted);
    assert_eq!(deltas[1].kind, DeltaKind::Added);
}

fn line(origin: char, text: &str) -> PatchLine {
    PatchLine { origin, text: Some(text.to_string()) }
}

#[test]
fn patch_text_marks_origins() {
    let lines = vec![
        line('F', "diff --git a/x b/x\n"),
        line('H', "@@ -1 +1 @@\n"),
        line(' ', "context\n"),
        line('-', "removed\n"),
        line('+', "added\n"),
    ];
    assert_eq!(
        patch_text(&lines),
        "diff --git a/x b/x\n@@ -1 +1 @@\n context\n-removed\n+added\n"
    );
}

#[test]
fn patch_text_replaces_binary_content() {
    let lines = vec![
        line('F', "diff --git a/x b/x\n"),
        PatchLine { origin: 'B', text: None },
        line('+', "never shown\n"),
    ];
    assert_eq!(
        patch_text(&lines),
        "diff --git a/x b/x\nCannot display diff for binary file."
    );
}

#[test]
fn line_splitting_matches_lines_semantics() {
    assert_eq!(split_lines("a\nb\n"), vec!["a", "b"]);
    assert_eq!(split_lines("a\r\nb"), vec!["a", "b"]);
    assert_eq!(split_lines(""), Vec::<String>::new());
    assert_eq!(split_lines("one"), vec!["one"]);
    assert_eq!(split_lines("x\n\ny\n"), vec!["x", "", "y"]);
    assert_eq!(first_line("top\nrest"), "top");
    assert_eq!(first_line("single"), "single");
    assert_eq!(first_line("crlf\r\nrest"), "crlf");
}

#[test]
fn empty_inputs_stay_empty() {
    assert_eq!(escape_html(""), "");
    assert_eq!(render_markdown(""), "");
    assert_eq!(patch_text(&Vec::new()), "");
    let deltas = tree_diff(None, &Vec::new());
    assert!(deltas.is_empty());
    assert!(find_renames(deltas).is_empty());
}
