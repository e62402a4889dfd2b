//! Markdown rendering and HTML sanitization.
//!
//! `to_html` converts markdown to an HTML fragment, `sanitize` filters a
//! fragment down to an allow-listed safe subset, and `render_safe` is the one
//! pipeline through which every fragment must pass before display: sanitize
//! is applied to every rendered fragment, with no path around it.

use vstd::prelude::*;

verus! {

/// The HTML fragment that the markdown renderer produces for a markdown
/// text. The rendering is a function of the text alone, so rendering the
/// same source twice gives byte-identical fragments.
pub uninterp spec fn html_of(markdown: Seq<char>) -> Seq<char>;

/// The HTML fragment that the sanitizer's allow-list filtering leaves of an
/// HTML text. The filtering is a function of the text alone.
pub uninterp spec fn clean_of(html: Seq<char>) -> Seq<char>;

/// `pat` occurs contiguously somewhere in `s`.
pub open spec fn contains_substring(s: Seq<char>, pat: Seq<char>) -> bool {
    exists|i: int| 0 <= i && i + pat.len() <= s.len() && #[trigger] s.subrange(
        i,
        i + pat.len(),
    ) == pat
}

/// The opening of a script element.
pub open spec fn script_open() -> Seq<char> {
    "<script"@
}

/// The opening of a style element.
pub open spec fn style_open() -> Seq<char> {
    "<style"@
}

/// A fragment is free of active content when no script or style element
/// opens anywhere in it.
pub open spec fn active_content_free(s: Seq<char>) -> bool {
    &&& !contains_substring(s, script_open())
    &&& !contains_substring(s, style_open())
}

/// Relies on pulldown_cmark::Parser::new and pulldown_cmark::html::push_html:
/// the parser is a pure iterator over the given text and push_html serializes
/// its events, so the fragment is a function of the markdown text alone, and
/// no input is rejected.
#[verifier::external_body]
fn markdown_to_html(source: &str) -> (r: String)
    ensures
        r@ == html_of(source@),
{
    let mut out = String::new();
    let parser = pulldown_cmark::Parser::new(source);
    pulldown_cmark::html::push_html(&mut out, parser);
    out
}

/// Relies on ammonia::clean with its conservative defaults: the cleaning is
/// a function of the input text alone; script and style elements are removed
/// together with their contents, every tag outside the fixed allow-list is
/// dropped, comments are stripped, and on re-serialization `<` is escaped in
/// text and in attribute values alike — so neither a script nor a style
/// element opens anywhere in the output.
#[verifier::external_body]
fn ammonia_clean(html: &str) -> (r: String)
    ensures
        r@ == clean_of(html@),
        active_content_free(r@),
{
    ammonia::clean(html)
}

/// Render markdown to an HTML fragment. Total over arbitrary input, and
/// deterministic: the result is a function of the markdown text alone.
pub fn to_html(markdown: &str) -> (r: String)
    ensures
        r@ == html_of(markdown@),
{
    markdown_to_html(markdown)
}

/// Filter an HTML fragment down to the safe allow-listed subset. Total over
/// arbitrary input; the output never opens a script or style element.
pub fn sanitize(html: &str) -> (r: String)
    ensures
        r@ == clean_of(html@),
        active_content_free(r@),
{
    ammonia_clean(html)
}

/// The one rendering pipeline: markdown to HTML, then unconditionally
/// through the sanitizer. Every displayed fragment comes from here, so no
/// unsanitized markup can reach a page, and the result never opens a script
/// or style element whatever the input held.
pub fn render_safe(markdown: &str) -> (r: String)
    ensures
        r@ == clean_of(html_of(markdown@)),
        active_content_free(r@),
{
    let html = to_html(markdown);
    sanitize(html.as_str())
}

/// Rendering is deterministic: one markdown source, rendered and sanitized
/// twice, gives byte-identical fragments.
pub fn render_safe_twice(markdown: &str) -> (r: (String, String))
    ensures
        r.0@ == r.1@,
        r.0@ == clean_of(html_of(markdown@)),
{
    let first = render_safe(markdown);
    let second = render_safe(markdown);
    (first, second)
}

} // verus!
