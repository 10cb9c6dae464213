//! Markdown rendering, which the `markdown` crate does.
//!
//! Nothing here is proved: the declarations below state what the `markdown`
//! crate does.

use vstd::prelude::*;

verus! {

/// `markdown::message::Message`, the error of the renderer.
#[verifier::external_type_specification]
#[verifier::external_body]
pub struct ExMessage(markdown::message::Message);

/// The HTML that `source` renders to, with the GitHub-flavored extensions on
/// and raw HTML let through.
pub uninterp spec fn rendered_html(source: Seq<char>) -> Seq<char>;

/// `markdown::to_html_with_options`, called with `Options::gfm()` and
/// `allow_dangerous_html` set. What it gives depends on the source alone,
/// and it gives no error: markdown has no syntax errors, and the MDX
/// constructs, which have, are off in these options.
#[verifier::external_body]
pub(crate) fn render_markdown(source: &str) -> (r: Result<String, markdown::message::Message>)
    ensures
        match r {
            Ok(html) => html@ == rendered_html(source@),
            Err(_) => false,
        },
{
    let options = markdown::Options {
        compile: markdown::CompileOptions {
            allow_dangerous_html: true,
            ..markdown::CompileOptions::default()
        },
        ..markdown::Options::gfm()
    };
    markdown::to_html_with_options(source, &options)
}

} // verus!
