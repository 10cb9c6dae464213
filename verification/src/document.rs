//! One page: fixed fragments around a title heading and the rendered body.

use crate::markdown_html::{render_markdown, rendered_html};
use crate::metadata::{declared_metadata, has_malformed_block, Metadata, MetadataView};
use crate::table::ParseError;
use vstd::pervasive::unreached;
use vstd::prelude::*;
use vstd::string::StringExecFns;

verus! {

/// A page that was converted, with what its document says of itself.
#[derive(Debug, Clone, PartialEq, Eq)]
pub struct Converted {
    /// The metadata of the document, with the name of its output file.
    pub metadata: Metadata,
    /// The text of the page.
    pub html: String,
    /// Why the metadata block was set aside, where it was not a TOML
    /// document.
    pub block_error: Option<ParseError>,
}

/// The character sequence of an optional string slice.
pub open spec fn slice_view(text: Option<&str>) -> Option<Seq<char>> {
    match text {
        Some(s) => Some(s@),
        None => None,
    }
}

/// The text of an optional fragment: empty where there is none.
pub open spec fn fragment_text(fragment: Option<Seq<char>>) -> Seq<char> {
    match fragment {
        Some(text) => text,
        None => Seq::empty(),
    }
}

/// The centered first-level heading that shows `title`, written as is.
pub open spec fn title_heading(title: Seq<char>) -> Seq<char> {
    "<h1><center> "@ + title + " </center></h1>\n"@
}

/// The heading of a page: none where the document has no title.
pub open spec fn heading_text(title: Option<Seq<char>>) -> Seq<char> {
    match title {
        Some(text) => title_heading(text),
        None => Seq::empty(),
    }
}

/// The text of a page: prologue, title heading, rendered body and epilogue,
/// in this order, each as it is.
pub open spec fn page_html(
    prologue: Option<Seq<char>>,
    title: Option<Seq<char>>,
    body: Seq<char>,
    epilogue: Option<Seq<char>>,
) -> Seq<char> {
    fragment_text(prologue) + heading_text(title) + body + fragment_text(epilogue)
}

/// What a document says of itself, for a page written to `file_name`.
pub open spec fn document_metadata(document: Seq<char>, file_name: Seq<char>) -> MetadataView {
    let declared = declared_metadata(document);
    MetadataView {
        title: declared.title,
        tags: declared.tags,
        publish_date: declared.publish_date,
        file_name: file_name,
    }
}

/// Appends a fragment to `out`, if there is one.
pub fn optional_concat(out: &mut String, fragment: Option<&str>)
    ensures
        final(out)@ == old(out)@ + fragment_text(slice_view(fragment)),
{
    if let Some(text) = fragment {
        out.append(text);
    }
}

/// Puts a page together from its fragments, its title and its rendered
/// body.
pub fn assemble_page(
    prologue: Option<&str>,
    title: Option<&str>,
    body: &str,
    epilogue: Option<&str>,
) -> (html: String)
    ensures
        html@ == page_html(slice_view(prologue), slice_view(title), body@, slice_view(epilogue)),
{
    let mut html = String::new();
    optional_concat(&mut html, prologue);
    if let Some(text) = title {
        html.append("<h1><center> ");
        html.append(text);
        html.append(" </center></h1>\n");
    }
    html.append(body);
    optional_concat(&mut html, epilogue);
    html
}

/// Renders the markdown of a document to HTML.
pub fn render_body(document: &str) -> (body: String)
    ensures
        body@ == rendered_html(document@),
{
    match render_markdown(document) {
        Ok(body) => body,
        Err(_) => unreached(),
    }
}

/// Renders a document to a page, under the given title.
pub fn render_page(
    document: &str,
    title: Option<&str>,
    prologue: Option<&str>,
    epilogue: Option<&str>,
) -> (html: String)
    ensures
        html@ == page_html(
            slice_view(prologue),
            slice_view(title),
            rendered_html(document@),
            slice_view(epilogue),
        ),
{
    let body = render_body(document);
    assemble_page(prologue, title, body.as_str(), epilogue)
}

/// Converts a document to the page that is written to `file_name`: reads
/// its metadata block, renders its markdown, and puts the page together.
/// A block that is not a TOML document declares nothing, so the page has no
/// title heading, and the error is reported beside the page.
pub fn convert_document(
    document: &str,
    file_name: &str,
    prologue: Option<&str>,
    epilogue: Option<&str>,
) -> (page: Converted)
    requires
        file_name@.len() > 0,
    ensures
        page.metadata@ == document_metadata(document@, file_name@),
        page.metadata@.file_name.len() > 0,
        page.html@ == page_html(
            slice_view(prologue),
            page.metadata@.title,
            rendered_html(document@),
            slice_view(epilogue),
        ),
        page.block_error is Some <==> has_malformed_block(document@),
        page.block_error is Some ==> page.metadata@.title is None && page.html@ == fragment_text(
            slice_view(prologue),
        ) + rendered_html(document@) + fragment_text(slice_view(epilogue)),
{
    let (mut metadata, block_error) = Metadata::from_document(document);
    metadata.file_name = file_name.to_owned();
    let title: Option<&str> = match &metadata.title {
        Some(text) => Some(text.as_str()),
        None => None,
    };
    let html = render_page(document, title, prologue, epilogue);
    Converted { metadata, html, block_error }
}

} // verus!
