//! Reference ordering, web-boundary decisions, and blob rendering helpers.
use mygit::blob::{blob_render_mode, media_html, mime_from_extension, number_lines, raw_mime, BlobRender};
use mygit::filters::{format_datetime, signature_email_link};
use mygit::model::{BranchInfo, Ident};
use mygit::refs::{sort_tags_desc, tag_link, tag_short_name, TagEntry};
use mygit::store::utf8_text;
use mygit::views::badges_html;
use mygit::web::{
    conditional_get_plan, error_page_plan, feed_base_url, gitweb_redirect_target, static_route,
    HttpMethod, StaticPlan,
};
use mygit::{export_ok, log_per_page, port, repo_directory, site_name, unix_perms, Config};

fn who(name: &str, secs: i64, offset: i32) -> Ident {
    Ident {
        name: name.to_string(),
        email: None,
        when_seconds: secs,
        when_offset_minutes: offset,
    }
}

fn tag(name: &str, secs: i64) -> TagEntry {
    TagEntry {
        link: format!("refs/{}", name),
        name: name.to_string(),
        tagger: who("t", secs, 0),
        message: String::new(),
    }
}

#[test]
fn tags_sort_newest_first() {
    let tags = vec![tag("old", 100), tag("newest", 900), tag("mid", 500)];
    let sorted = sort_tags_desc(tags);
    let names: Vec<&str> = sorted.iter().map(|t| t.name.as_str()).collect();
    assert_eq!(names, vec!["newest", "mid", "old"]);
}

#[test]
fn tag_names_and_links() {
    assert_eq!(tag_short_name("refs/tags/v1.0"), "v1.0");
    assert_eq!(tag_link("v1.0", true), "refs/v1.0");
    assert_eq!(tag_link("v1.0", false), "commit/v1.0");
}

#[test]
fn permission_strings() {
    assert_eq!(unix_perms(0o040000), "drwxr-xr-x");
    assert_eq!(unix_perms(0o100755), "-rwxr-xr-x");
    assert_eq!(unix_perms(0o100644), "-rw-r--r--");
    assert_eq!(unix_perms(0o120000), "lrwxrwxrwx");
    assert_eq!(unix_perms(0o160000), "m---------");
}

#[test]
fn signature_links() {
    let with_email = Ident {
        name: String::from("Ada"),
        email: Some(String::from("ada@example.org")),
        when_seconds: 0,
        when_offset_minutes: 0,
    };
    assert_eq!(
        signature_email_link(&with_email),
        "<a href=\"mailto:ada@example.org\">Ada</a>"
    );
    assert_eq!(signature_email_link(&who("Bob", 0, 0)), "Bob");
}

#[test]
fn datetime_formatting() {
    assert_eq!(format_datetime(0, 0).unwrap(), "1970-01-01 00:00:00");
    assert_eq!(format_datetime(1_000_000_000, 0).unwrap(), "2001-09-09 01:46:40");
    // one hour west of UTC
    assert_eq!(format_datetime(0, 60).unwrap(), "1969-12-31 23:00:00");
}

#[test]
fn static_routes() {
    assert_eq!(
        static_route("/style.css"),
        Some(("templates/static/style.css", "text/css;charset=utf-8"))
    );
    assert_eq!(
        static_route("/robots.txt"),
        Some(("templates/static/robots.txt", "text/plain;charset=utf-8"))
    );
    assert_eq!(
        static_route("/Feed-icon.svg"),
        Some(("templates/static/Feed-icon.svg", "image/svg+xml"))
    );
    assert_eq!(static_route("/else"), None);
}

#[test]
fn conditional_get() {
    assert_eq!(conditional_get_plan(HttpMethod::Get, Some(10), 10), StaticPlan::NotModified);
    assert_eq!(conditional_get_plan(HttpMethod::Head, Some(20), 10), StaticPlan::NotModified);
    assert_eq!(conditional_get_plan(HttpMethod::Get, Some(5), 10), StaticPlan::SendBody);
    assert_eq!(conditional_get_plan(HttpMethod::Get, None, 10), StaticPlan::SendBody);
    assert_eq!(conditional_get_plan(HttpMethod::Head, None, 10), StaticPlan::HeadOnly);
    assert_eq!(conditional_get_plan(HttpMethod::Other, None, 10), StaticPlan::MethodNotAllowed);
}

#[test]
fn error_pages() {
    let masked = error_page_plan(500, false, "secret detail", false);
    assert_eq!(masked.message, "Internal Server Error");
    assert!(masked.show_body);
    assert!(!masked.allow_header);
    let dev = error_page_plan(500, false, "secret detail", true);
    assert_eq!(dev.message, "secret detail");
    let head = error_page_plan(404, true, "missing", false);
    assert!(!head.show_body);
    let not_allowed = error_page_plan(405, false, "", false);
    assert!(not_allowed.allow_header);
}

#[test]
fn gitweb_redirects() {
    let repo = String::from("proj");
    let commit = String::from("commitdiff");
    let log = String::from("log");
    let summary = String::from("summary");
    let odd = String::from("blame");
    let rev = String::from("abc123");
    assert_eq!(gitweb_redirect_target(None, None, None), None);
    assert_eq!(gitweb_redirect_target(Some(&repo), None, None).unwrap(), "/proj/");
    assert_eq!(gitweb_redirect_target(Some(&repo), Some(&summary), None).unwrap(), "/proj/");
    assert_eq!(
        gitweb_redirect_target(Some(&repo), Some(&commit), Some(&rev)).unwrap(),
        "/proj/commit/abc123"
    );
    assert_eq!(
        gitweb_redirect_target(Some(&repo), Some(&log), Some(&rev)).unwrap(),
        "/proj/log/abc123"
    );
    assert_eq!(gitweb_redirect_target(Some(&repo), Some(&odd), None).unwrap(), "/");
}

#[test]
fn feed_base_urls() {
    assert_eq!(feed_base_url("/proj/log.xml", false), "/proj");
    assert_eq!(feed_base_url("/proj/log/main/feed.xml", true), "/proj");
}

#[test]
fn blob_render_decisions() {
    let image = String::from("image");
    let audio = String::from("audio");
    let video = String::from("video");
    let app = String::from("application");
    assert_eq!(blob_render_mode(false, None), BlobRender::Text);
    assert_eq!(blob_render_mode(true, Some(&image)), BlobRender::Image);
    assert_eq!(blob_render_mode(true, Some(&audio)), BlobRender::Audio);
    assert_eq!(blob_render_mode(true, Some(&video)), BlobRender::Video);
    assert_eq!(blob_render_mode(true, Some(&app)), BlobRender::BinaryPlaceholder);
    assert_eq!(blob_render_mode(true, None), BlobRender::BinaryPlaceholder);
}

#[test]
fn media_markup() {
    assert_eq!(
        media_html(BlobRender::Image, "proj", "main", "logo.svg"),
        "<img src=\"/proj/tree/main/raw/logo.svg\" />"
    );
    assert_eq!(
        media_html(BlobRender::Audio, "proj", "main", "a.ogg"),
        "<audio src=\"/proj/tree/main/raw/a.ogg\" controls>Your browser does not have support for playing this audio file.</audio>"
    );
}

#[test]
fn mime_lookup_and_raw_mime() {
    let (base, essence) = mime_from_extension("css").unwrap();
    assert_eq!(base, "text");
    assert_eq!(essence, "text/css");
    let (base, _) = mime_from_extension("svg").unwrap();
    assert_eq!(base, "image");
    assert_eq!(
        mime_from_extension("html").unwrap(),
        (String::from("text"), String::from("text/html"))
    );
    assert_eq!(
        mime_from_extension("js").unwrap(),
        (String::from("application"), String::from("application/javascript"))
    );
    assert!(mime_from_extension("rs").is_none());
    assert_eq!(raw_mime(Some(String::from("image/svg+xml")), true), "image/svg+xml");
    assert_eq!(raw_mime(None, true), "application/octet-stream");
    assert_eq!(raw_mime(None, false), "text/plain;charset=utf-8");
}

#[test]
fn line_anchors_embed_numbers_and_prefix() {
    let lines = vec![String::from("fn main() {}"), String::from("// end")];
    let html = number_lines(&lines, "/proj/tree/deadbeef/item/main.rs");
    assert_eq!(
        html,
        "<pre>\n\
         <a href='/proj/tree/deadbeef/item/main.rs#L1' id='L1' class='line'>1</a>fn main() {}\n\
         <a href='/proj/tree/deadbeef/item/main.rs#L2' id='L2' class='line'>2</a>// end\n\
         </pre>\n"
    );
}

#[test]
fn badge_markup() {
    let tagname = String::from("v2");
    let branches = vec![
        BranchInfo { name: String::from("main"), tip_id: String::from("abc") },
        BranchInfo { name: String::from("dev"), tip_id: String::from("def") },
    ];
    let html = badges_html("proj", Some(&tagname), &branches, "abc");
    assert_eq!(
        html,
        "<a href=\"/proj/refs/v2\" class=\"badge tag\">v2</a> \
         <a href=\"/proj/log/main\" class=\"badge branch\">main</a>"
    );
    let none = badges_html("proj", None, &branches, "zzz");
    assert_eq!(none, "");
}

#[test]
fn utf8_decoding() {
    assert_eq!(utf8_text(b"hello"), Some(String::from("hello")));
    assert_eq!(utf8_text(&[0xff, 0xfe]), None);
}

#[test]
fn configuration_defaults() {
    let c = Config::default();
    assert_eq!(c.port, 80);
    assert_eq!(c.projectroot, "repos");
    assert_eq!(c.site_name, "mygit");
    assert_eq!(c.export_ok, "git-daemon-export-ok");
    assert_eq!(c.log_per_page, 100);
    assert_eq!(c.emoji_favicon, "");
    assert_eq!(c.clone_base, "");
    assert_eq!(port(), 80);
    assert_eq!(repo_directory(), "repos");
    assert_eq!(site_name(), "mygit");
    assert_eq!(export_ok(), "git-daemon-export-ok");
    assert_eq!(log_per_page(), 100);
}

#[test]
fn tag_sort_keeps_equal_timestamps() {
    let tags = vec![tag("first", 500), tag("second", 500), tag("older", 100)];
    let sorted = sort_tags_desc(tags);
    assert_eq!(sorted.len(), 3);
    assert_eq!(sorted[2].name, "older");
    let mut pair: Vec<&str> = sorted[..2].iter().map(|t| t.name.as_str()).collect();
    pair.sort();
    assert_eq!(pair, vec!["first", "second"]);
}
