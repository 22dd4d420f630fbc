//! The README cascade: a fixed, ordered list of candidate file names is
//! probed against a commit's tree; the first hit decides both the content and
//! the rendering format. No hit is a valid empty state, not an error.
use crate::text;
use vstd::prelude::*;

verus! {

/// How a README is turned into HTML.
#[derive(Clone, Copy, Debug, PartialEq, Eq, Structural)]
pub enum ReadmeFormat {
    Plaintext,
    Html,
    Markdown,
}

/// What a Markdown renderer makes of a text; a function of the text alone.
pub uninterp spec fn markdown_html(s: Seq<char>) -> Seq<char>;

/// Relies on pulldown_cmark::Parser and pulldown_cmark::html::push_html:
/// renders CommonMark (no extensions) to HTML, deterministically.
#[verifier::external_body]
pub fn render_markdown(text: &str) -> (r: String)
    ensures
        r@ == markdown_html(text@),
{
    let mut output = String::new();
    let parser = pulldown_cmark::Parser::new_ext(text, pulldown_cmark::Options::empty());
    pulldown_cmark::html::push_html(&mut output, parser);
    output
}

/// The candidates, in the order they are probed; the first hit wins.
pub open spec fn spec_candidates() -> Seq<Seq<char>> {
    seq![
        "README"@,
        "README.txt"@,
        "README.md"@,
        "README.mdown"@,
        "README.markdown"@,
        "README.html"@,
        "README.htm"@,
    ]
}

/// The format each candidate position renders with.
pub open spec fn spec_format_at(i: int) -> ReadmeFormat {
    if i == 2 || i == 3 || i == 4 {
        ReadmeFormat::Markdown
    } else if i == 5 || i == 6 {
        ReadmeFormat::Html
    } else {
        ReadmeFormat::Plaintext
    }
}

pub fn readme_candidates() -> (r: Vec<&'static str>)
    ensures
        r@.len() == spec_candidates().len(),
        forall|i: int| 0 <= i < r@.len() ==> r@[i]@ == spec_candidates()[i],
{
    let mut v: Vec<&'static str> = Vec::new();
    v.push("README");
    v.push("README.txt");
    v.push("README.md");
    v.push("README.mdown");
    v.push("README.markdown");
    v.push("README.html");
    v.push("README.htm");
    proof {
        assert(forall|i: int| 0 <= i < v@.len() ==> v@[i]@ == spec_candidates()[i]);
    }
    v
}

pub fn readme_format_at(i: usize) -> (r: ReadmeFormat)
    ensures
        r == spec_format_at(i as int),
{
    if i == 2 || i == 3 || i == 4 {
        ReadmeFormat::Markdown
    } else if i == 5 || i == 6 {
        ReadmeFormat::Html
    } else {
        ReadmeFormat::Plaintext
    }
}

/// The first candidate the tree holds: its position, or nothing when no
/// candidate is present.
pub open spec fn spec_first_hit(found: Seq<Option<Seq<char>>>) -> Option<int> {
    text_first_some(found, 0)
}

pub open spec fn text_first_some(found: Seq<Option<Seq<char>>>, i: int) -> Option<int>
    decreases found.len() - i,
{
    if i < 0 || i >= found.len() {
        None
    } else if found[i] is Some {
        Some(i)
    } else {
        text_first_some(found, i + 1)
    }
}

/// Picks the first present candidate. `found` holds, for each candidate in
/// order, the blob text when the tree has that file.
pub fn choose_readme(found: &Vec<Option<String>>) -> (r: Option<(usize, String)>)
    ensures
        match r {
            Some(pair) => {
                &&& spec_first_hit(found.deep_view()) == Some(pair.0 as int)
                &&& pair.0 < found@.len()
                &&& found@[pair.0 as int] is Some
                &&& pair.1@ == found@[pair.0 as int]->Some_0@
            },
            None => spec_first_hit(found.deep_view()) is None,
        },
{
    let n = found.len();
    let mut i: usize = 0;
    proof {
        assert(found.deep_view().len() == found@.len());
    }
    while i < n
        invariant
            0 <= i <= n,
            n == found@.len(),
            found.deep_view().len() == found@.len(),
            forall|j: int|
                0 <= j < found@.len() ==> (found.deep_view()[j] is Some <==> found@[j] is Some),
            forall|j: int|
                0 <= j < found@.len() && found@[j] is Some ==> found.deep_view()[j]->Some_0
                    == found@[j]->Some_0@,
            text_first_some(found.deep_view(), 0) == text_first_some(found.deep_view(), i as int),
        decreases n - i,
    {
        match &found[i] {
            Some(texty) => {
                return Some((i, texty.clone()));
            },
            None => {
                i = i + 1;
            },
        }
    }
    None
}

/// The rendering of a README: plaintext is escaped and wrapped in a
/// preformatted block, HTML passes through verbatim, Markdown is rendered.
pub open spec fn spec_render_readme(format: ReadmeFormat, content: Seq<char>) -> Seq<char> {
    match format {
        ReadmeFormat::Plaintext => "<pre>"@ + text::escaped_html(content) + "</pre>"@,
        ReadmeFormat::Html => content,
        ReadmeFormat::Markdown => markdown_html(content),
    }
}

pub fn render_readme(format: ReadmeFormat, content: &str) -> (r: String)
    ensures
        r@ == spec_render_readme(format, content@),
{
    match format {
        ReadmeFormat::Plaintext => {
            let mut out = "<pre>".to_owned();
            let escaped = text::escape_html(content);
            out.append(escaped.as_str());
            out.append("</pre>");
            out
        },
        ReadmeFormat::Html => content.to_owned(),
        ReadmeFormat::Markdown => render_markdown(content),
    }
}

/// A tree holding only `README.md` renders as Markdown-derived HTML.
pub proof fn lemma_cascade_markdown_only(found: Seq<Option<Seq<char>>>, content: Seq<char>)
    requires
        found.len() == spec_candidates().len(),
        found[2] == Some(content),
        forall|i: int| 0 <= i < found.len() && i != 2 ==> found[i] is None,
    ensures
        spec_first_hit(found) == Some(2int),
        spec_render_readme(spec_format_at(2), content) == markdown_html(content),
{
    assert(text_first_some(found, 0) == text_first_some(found, 1));
    assert(text_first_some(found, 1) == text_first_some(found, 2));
    assert(text_first_some(found, 2) == Some(2int));
}

/// When both `README` and `README.md` are present, the plaintext `README`
/// wins, and is escaped inside a preformatted block.
pub proof fn lemma_cascade_plaintext_wins(found: Seq<Option<Seq<char>>>, content: Seq<char>)
    requires
        found.len() == spec_candidates().len(),
        found[0] == Some(content),
    ensures
        spec_first_hit(found) == Some(0int),
        spec_render_readme(spec_format_at(0), content) == "<pre>"@ + text::escaped_html(content)
            + "</pre>"@,
{
}

} // verus!
