//! Render pipeline: converting an uploaded markdown document to its browsable
//! HTML form. The conversion itself is supplied by the `pulldown_cmark` crate
//! and treated as a pure function from text to text.

use vstd::prelude::*;

verus! {

/// The HTML that the markdown renderer produces for a given source text. The
/// renderer is deterministic, so its output is a function of the source
/// characters alone; what exactly it produces is not modelled here.
pub uninterp spec fn render_of(source: Seq<char>) -> Seq<char>;

/// Relies on pulldown_cmark's `Parser::new` and `html::push_html`: parsing
/// uses no options or callbacks and the emitted HTML depends on the input
/// text alone.
#[verifier::external_body]
pub(crate) fn render_markdown(source: &str) -> (r: String)
    ensures
        r@ == render_of(source@),
{
    let parser = pulldown_cmark::Parser::new(source);
    let mut out = String::new();
    pulldown_cmark::html::push_html(&mut out, parser);
    out
}

} // verus!
