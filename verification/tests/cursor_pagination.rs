//! Cursor parsing, formatting, and pagination behavior.
use mygit::cursor::{format_cursor, next_cursor, parse_cursor};
use mygit::pagination::paginate;
use mygit::text::{parse_usize, usize_to_dec};

#[test]
fn decimal_formatting_exact() {
    assert_eq!(usize_to_dec(0), "0");
    assert_eq!(usize_to_dec(7), "7");
    assert_eq!(usize_to_dec(100), "100");
    assert_eq!(usize_to_dec(90210), "90210");
}

#[test]
fn decimal_parsing_exact() {
    assert_eq!(parse_usize("0"), Some(0));
    assert_eq!(parse_usize("100"), Some(100));
    assert_eq!(parse_usize("007"), Some(7));
    assert_eq!(parse_usize(""), None);
    assert_eq!(parse_usize("12a"), None);
    assert_eq!(parse_usize("-3"), None);
    assert_eq!(parse_usize("99999999999999999999999999"), None);
}

#[test]
fn decimal_round_trip() {
    for n in [0usize, 1, 9, 10, 99, 100, 12345, usize::MAX] {
        assert_eq!(parse_usize(&usize_to_dec(n)), Some(n));
    }
}

#[test]
fn cursor_round_trip() {
    let c = format_cursor("main", 250);
    assert_eq!(c, "main~250");
    let (base, depth) = parse_cursor(&c);
    assert_eq!(base, "main");
    assert_eq!(depth, 250);
}

#[test]
fn next_cursor_appends_depth_when_absent() {
    assert_eq!(next_cursor("HEAD", 100), "HEAD~100");
    assert_eq!(next_cursor("feature/x", 25), "feature/x~25");
}

#[test]
fn next_cursor_advances_existing_depth() {
    assert_eq!(next_cursor("HEAD~100", 100), "HEAD~200");
    assert_eq!(next_cursor("v1.0~3", 7), "v1.0~10");
}

#[test]
fn next_cursor_treats_bad_depth_as_one() {
    assert_eq!(next_cursor("HEAD~x", 100), "HEAD~101");
    assert_eq!(next_cursor("HEAD~", 100), "HEAD~101");
}

#[test]
fn parse_cursor_without_tilde_is_depth_zero() {
    let (base, depth) = parse_cursor("HEAD");
    assert_eq!(base, "HEAD");
    assert_eq!(depth, 0);
}

#[test]
fn paginate_splits_and_probes() {
    let ids: Vec<String> = (0..5).map(|i| format!("c{}", i)).collect();
    let (page, more) = paginate(&ids, 3);
    assert_eq!(page, vec!["c0", "c1", "c2"]);
    assert!(more);
    let (page, more) = paginate(&ids, 5);
    assert_eq!(page.len(), 5);
    assert!(!more);
    let (page, more) = paginate(&ids, 9);
    assert_eq!(page.len(), 5);
    assert!(!more);
}

/// A history of 250 commits read 100 per page: three pages of 100, 100, and
/// 50 commits, with next-cursors HEAD~100 and HEAD~200, and no cursor on the
/// last page; every commit appears exactly once.
#[test]
fn two_hundred_fifty_commits_three_pages() {
    let history: Vec<String> = (0..250).map(|i| format!("commit{:03}", i)).collect();
    let per_page = 100usize;

    // first request: no cursor, the walk starts at the head
    let (page1, more1) = paginate(&history, per_page);
    assert_eq!(page1.len(), 100);
    assert_eq!(page1[0], "commit000");
    assert_eq!(page1[99], "commit099");
    assert!(more1);
    let cursor1 = next_cursor("HEAD", per_page);
    assert_eq!(cursor1, "HEAD~100");

    // second request: the store resolves HEAD~100 to the 101st commit
    let (_, depth1) = parse_cursor(&cursor1);
    assert_eq!(depth1, 100);
    let rest1: Vec<String> = history[depth1..].to_vec();
    let (page2, more2) = paginate(&rest1, per_page);
    assert_eq!(page2.len(), 100);
    assert_eq!(page2[0], "commit100");
    assert_eq!(page2[99], "commit199");
    assert!(more2);
    let cursor2 = next_cursor(&cursor1, per_page);
    assert_eq!(cursor2, "HEAD~200");

    // third request: 50 commits remain and no further cursor is handed out
    let (_, depth2) = parse_cursor(&cursor2);
    assert_eq!(depth2, 200);
    let rest2: Vec<String> = history[depth2..].to_vec();
    let (page3, more3) = paginate(&rest2, per_page);
    assert_eq!(page3.len(), 50);
    assert_eq!(page3[0], "commit200");
    assert_eq!(page3[49], "commit249");
    assert!(!more3);

    // the three pages cover the history exactly once
    let mut all: Vec<String> = Vec::new();
    all.extend(page1);
    all.extend(page2);
    all.extend(page3);
    assert_eq!(all, history);
}

/// Parsing a generated next-cursor and walking from it reproduces the exact
/// remaining suffix of the original walk.
#[test]
fn cursor_resume_reproduces_suffix() {
    let history: Vec<String> = (0..37).map(|i| format!("id{}", i)).collect();
    let per_page = 10usize;
    let (_, more) = paginate(&history, per_page);
    assert!(more);
    let cursor = next_cursor("main", per_page);
    let (base, depth) = parse_cursor(&cursor);
    assert_eq!(base, "main");
    let resumed: Vec<String> = history[depth..].to_vec();
    assert_eq!(resumed, history[10..].to_vec());
}

#[test]
fn next_cursor_saturates_at_the_word_limit() {
    let deep = format!("x~{}", usize::MAX);
    assert_eq!(next_cursor(&deep, 1), deep);
}

#[test]
fn paginate_empty_history() {
    let ids: Vec<String> = Vec::new();
    let (page, more) = paginate(&ids, 100);
    assert!(page.is_empty());
    assert!(!more);
}
