//! What a document says of itself: title, tags and date of publication.

use crate::date::{Date, DateTimeParts};
use crate::front_matter::{front_matter, front_matter_block, has_marker};
use crate::table::{entry, parse_document, string_entry, text_entry, text_of, ParseError};
use crate::text::{option_view, strings_view};
use crate::toml_doc::{
    table_get, table_model, toml_document, value_datetime, value_model, ValueModel,
};
use vstd::prelude::*;

verus! {

/// The metadata of one document.
#[derive(Debug, Clone, PartialEq, Eq)]
pub struct Metadata {
    /// The title, if the document declares one.
    pub title: Option<String>,
    /// The tags as declared, in order; a tag may occur twice.
    pub tags: Vec<String>,
    /// The day of publication, if the document declares one.
    pub publish_date: Option<Date>,
    /// The name of the file that the page is written to, which the index
    /// links to. Empty until the page is converted.
    pub file_name: String,
}

/// The mathematical value of a `Metadata`.
pub struct MetadataView {
    pub title: Option<Seq<char>>,
    pub tags: Seq<Seq<char>>,
    pub publish_date: Option<Date>,
    pub file_name: Seq<char>,
}

impl MetadataView {
    /// The metadata of a document that declares nothing.
    pub open spec fn empty() -> MetadataView {
        MetadataView {
            title: None,
            tags: Seq::empty(),
            publish_date: None,
            file_name: Seq::empty(),
        }
    }
}

impl View for Metadata {
    type V = MetadataView;

    open spec fn view(&self) -> MetadataView {
        MetadataView {
            title: option_view(self.title),
            tags: strings_view(self.tags@),
            publish_date: self.publish_date,
            file_name: self.file_name@,
        }
    }
}

/// The title that a metadata table declares: the string under `title`.
pub open spec fn title_of(table: Map<Seq<char>, ValueModel>) -> Option<Seq<char>> {
    text_entry(table, "title"@)
}

/// The day that a metadata table declares: the calendar date under
/// `published`. A date-time with a time of day or an offset is no calendar
/// date, and declares none.
pub open spec fn publish_date_of(table: Map<Seq<char>, ValueModel>) -> Option<Date> {
    match entry(table, "published"@) {
        Some(ValueModel::Datetime(parts)) => parts.plain_date(),
        _ => None,
    }
}

/// The tags that a metadata table declares: the strings among the items of
/// the array under `tags`, in order.
pub open spec fn tags_of(table: Map<Seq<char>, ValueModel>) -> Seq<Seq<char>> {
    match entry(table, "tags"@) {
        Some(ValueModel::Array(items)) => items.filter_map(|item: ValueModel| text_of(item)),
        _ => Seq::empty(),
    }
}

/// The metadata that a table declares. A field that is missing or holds a
/// value of another kind is left as in `MetadataView::empty`.
pub open spec fn table_metadata(table: Map<Seq<char>, ValueModel>) -> MetadataView {
    MetadataView {
        title: title_of(table),
        tags: tags_of(table),
        publish_date: publish_date_of(table),
        file_name: Seq::empty(),
    }
}

/// The metadata that a block declares: nothing where the block is empty,
/// `None` where it is not a TOML document.
pub open spec fn block_metadata(block: Seq<char>) -> Option<MetadataView> {
    if block.len() == 0 {
        Some(MetadataView::empty())
    } else {
        match toml_document(block) {
            Some(table) => Some(table_metadata(table)),
            None => None,
        }
    }
}

/// The metadata that a block declares, with nothing declared where the block
/// is not a TOML document.
pub open spec fn block_metadata_or_empty(block: Seq<char>) -> MetadataView {
    match block_metadata(block) {
        Some(metadata) => metadata,
        None => MetadataView::empty(),
    }
}

/// The string values that hold `texts`, in order.
pub open spec fn string_values(texts: Seq<Seq<char>>) -> Seq<ValueModel> {
    texts.map_values(|text: Seq<char>| ValueModel::Str(text))
}

/// The strings among string values are the strings that they hold.
pub proof fn lemma_string_values_are_read(texts: Seq<Seq<char>>)
    ensures
        string_values(texts).filter_map(|item: ValueModel| text_of(item)) == texts,
    decreases texts.len(),
{
    if texts.len() > 0 {
        lemma_string_values_are_read(texts.drop_last());
        assert(string_values(texts).drop_last() =~= string_values(texts.drop_last()));
    }
}

/// A table that holds a string under `title`, an array of strings under
/// `tags` and a calendar date under `published` declares exactly these: the title
/// character by character, the tags item by item, and the date by year,
/// month and day. What else the table holds does not matter.
pub proof fn lemma_declared_fields_are_read(
    table: Map<Seq<char>, ValueModel>,
    title: Seq<char>,
    tags: Seq<Seq<char>>,
    date: Date,
)
    requires
        entry(table, "title"@) == Some(ValueModel::Str(title)),
        entry(table, "tags"@) == Some(ValueModel::Array(string_values(tags))),
        entry(table, "published"@) == Some(
            ValueModel::Datetime(
                DateTimeParts { date: Some(date), has_time: false, has_offset: false },
            ),
        ),
    ensures
        table_metadata(table).title == Some(title),
        table_metadata(table).tags == tags,
        table_metadata(table).publish_date == Some(date),
{
    lemma_string_values_are_read(tags);
}

/// Whether a document carries a metadata block that is not a TOML document.
pub open spec fn has_malformed_block(document: Seq<char>) -> bool {
    front_matter_block(document) matches Some(block) && block_metadata(block) is None
}

/// What a document declares in its metadata block: nothing where it has no
/// block, or where the block is not a TOML document.
pub open spec fn declared_metadata(document: Seq<char>) -> MetadataView {
    match front_matter_block(document) {
        Some(block) => block_metadata_or_empty(block),
        None => MetadataView::empty(),
    }
}

/// The strings among `items`, in order.
fn string_items(items: &Vec<toml::Value>) -> (strings: Vec<String>)
    ensures
        strings_view(strings@) == items@.map_values(|item: toml::Value| value_model(item)).filter_map(
            |item: ValueModel| text_of(item),
        ),
{
    let ghost models = items@.map_values(|item: toml::Value| value_model(item));
    let ghost pick = |item: ValueModel| text_of(item);
    let mut strings: Vec<String> = Vec::new();
    let mut i: usize = 0;
    while i < items.len()
        invariant
            i <= items.len(),
            models == items@.map_values(|item: toml::Value| value_model(item)),
            pick == |item: ValueModel| text_of(item),
            strings_view(strings@) == models.take(i as int).filter_map(pick),
        decreases items.len() - i,
    {
        proof {
            models.lemma_filter_map_take_succ(pick, i as int);
        }
        if let Some(s) = items[i].as_str() {
            strings.push(s.to_owned());
        }
        i += 1;
    }
    assert(models.take(items.len() as int) =~= models);
    strings
}

impl Metadata {
    /// The metadata of a document that declares nothing.
    pub fn new() -> (metadata: Metadata)
        ensures
            metadata@ == MetadataView::empty(),
    {
        let metadata = Metadata {
            title: None,
            tags: Vec::new(),
            publish_date: None,
            file_name: String::new(),
        };
        assert(metadata@.tags =~= Seq::empty());
        metadata
    }

    /// Reads the metadata that a parsed table declares, field by field.
    pub fn from_table(table: &toml::Table) -> (metadata: Metadata)
        ensures
            metadata@ == table_metadata(table_model(*table)),
    {
        let mut metadata = Metadata::new();
        metadata.title = string_entry(table, "title");
        if let Some(value) = table_get(table, "published") {
            if let Some(parts) = value_datetime(value) {
                metadata.publish_date = parts.as_plain_date();
            }
        }
        if let Some(value) = table_get(table, "tags") {
            if let Some(items) = value.as_array() {
                metadata.tags = string_items(items);
            }
        }
        metadata
    }

    /// Parses a metadata block. An empty block declares nothing; a block
    /// that is not a TOML document is an error.
    pub fn parse(block: &str) -> (r: Result<Metadata, ParseError>)
        ensures
            match r {
                Ok(metadata) => block_metadata(block@) == Some(metadata@),
                Err(_) => block_metadata(block@) is None,
            },
    {
        if block.is_empty() {
            return Ok(Metadata::new());
        }
        match parse_document(block) {
            Ok(table) => Ok(Metadata::from_table(&table)),
            Err(e) => Err(e),
        }
    }

    /// Reads what a document declares in its metadata block. A block that is
    /// not a TOML document declares nothing, and the error is handed back
    /// beside the metadata. A document whose first line is not the opening
    /// marker declares nothing.
    pub fn from_document(document: &str) -> (r: (Metadata, Option<ParseError>))
        ensures
            r.0@ == declared_metadata(document@),
            r.1 is Some <==> has_malformed_block(document@),
            !has_marker(document@) ==> r.0@ == MetadataView::empty() && r.1 is None,
    {
        match front_matter(document) {
            Some(block) => match Metadata::parse(block.as_str()) {
                Ok(metadata) => (metadata, None),
                Err(e) => (Metadata::new(), Some(e)),
            },
            None => (Metadata::new(), None),
        }
    }

    /// Parses a metadata block, with nothing declared where the block is not
    /// a TOML document.
    pub fn from_toml(block: &str) -> (metadata: Metadata)
        ensures
            metadata@ == block_metadata_or_empty(block@),
    {
        match Metadata::parse(block) {
            Ok(metadata) => metadata,
            Err(_) => Metadata::new(),
        }
    }
}

} // verus!
