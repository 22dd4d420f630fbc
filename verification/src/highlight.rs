//! The trusted interface to the syntax highlighter. The syntax-definition
//! catalog is built once at startup and shared read-only; highlighting emits
//! CSS-classed spans with no inline colors, so pages can restyle them for
//! light and dark themes.
use vstd::prelude::*;

verus! {

#[verifier::external_type_specification]
#[verifier::external_body]
pub struct ExSyntaxSet(syntect::parsing::SyntaxSet);

#[verifier::external_type_specification]
#[verifier::external_body]
pub struct ExSyntaxReference(syntect::parsing::SyntaxReference);

/// Relies on syntect::parsing::SyntaxSet::find_syntax_by_extension.
#[verifier::external_body]
pub fn find_syntax_by_extension<'a>(ss: &'a syntect::parsing::SyntaxSet, ext: &str) -> (r: Option<
    &'a syntect::parsing::SyntaxReference,
>) {
    ss.find_syntax_by_extension(ext)
}

/// Relies on syntect::parsing::SyntaxSet::find_syntax_by_name.
#[verifier::external_body]
pub fn find_syntax_by_name<'a>(ss: &'a syntect::parsing::SyntaxSet, name: &str) -> (r: Option<
    &'a syntect::parsing::SyntaxReference,
>) {
    ss.find_syntax_by_name(name)
}

/// Relies on syntect::parsing::SyntaxSet::find_syntax_by_name for the
/// bundled "Plain Text" definition, the fallback that highlights nothing;
/// absent when the set was built without it.
#[verifier::external_body]
pub fn plain_text_syntax<'a>(ss: &'a syntect::parsing::SyntaxSet) -> (r: Option<
    &'a syntect::parsing::SyntaxReference,
>) {
    ss.find_syntax_by_name("Plain Text")
}

/// Relies on syntect::html::ClassedHTMLGenerator: the text highlighted line
/// by line into HTML spans classed by scope.
#[verifier::external_body]
pub fn highlight_html(
    ss: &syntect::parsing::SyntaxSet,
    syntax: &syntect::parsing::SyntaxReference,
    source: &str,
) -> (r: String) {
    let mut generator = syntect::html::ClassedHTMLGenerator::new_with_class_style(
        syntax,
        ss,
        syntect::html::ClassStyle::Spaced,
    );
    for line in syntect::util::LinesWithEndings::from(source) {
        let _ = generator.parse_html_for_line_which_includes_newline(line);
    }
    generator.finalize()
}

} // verus!
