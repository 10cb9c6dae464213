//! The configuration of an index page: its title and the tags that get a
//! section, in the order of their sections.

use crate::table::{entry, parse_document, string_entry_or_empty, text_entry_or_empty, ParseError};
use crate::toml_doc::{table_get, table_model, toml_document, value_model, ValueModel};
use vstd::prelude::*;

verus! {

/// A tag that gets a section of the index.
#[derive(Debug, Clone, PartialEq, Eq)]
pub struct Tag {
    /// The name, which documents carry in their list of tags.
    pub name: String,
    /// Free text shown under the section's heading.
    pub description: String,
}

/// The mathematical value of a `Tag`.
pub struct TagView {
    pub name: Seq<char>,
    pub description: Seq<char>,
}

impl View for Tag {
    type V = TagView;

    open spec fn view(&self) -> TagView {
        TagView { name: self.name@, description: self.description@ }
    }
}

/// The configuration of an index page.
#[derive(Debug, Clone, PartialEq, Eq)]
pub struct IndexConfig {
    /// The title of the index page.
    pub title: String,
    /// The tags that get a section, in the order of their sections.
    pub tags: Vec<Tag>,
}

/// The mathematical value of an `IndexConfig`.
pub struct IndexConfigView {
    pub title: Seq<char>,
    pub tags: Seq<TagView>,
}

impl IndexConfigView {
    /// The configuration with an empty title and no tags.
    pub open spec fn empty() -> IndexConfigView {
        IndexConfigView { title: Seq::empty(), tags: Seq::empty() }
    }
}

/// The mathematical values of a sequence of tags.
pub open spec fn tags_view(tags: Seq<Tag>) -> Seq<TagView> {
    tags.map_values(|tag: Tag| tag@)
}

impl View for IndexConfig {
    type V = IndexConfigView;

    open spec fn view(&self) -> IndexConfigView {
        IndexConfigView { title: self.title@, tags: tags_view(self.tags@) }
    }
}

/// The tag that an item of the `tag` array declares: a table gives a tag
/// with the strings under `name` and `description`; any other item gives
/// none.
pub open spec fn tag_of(item: ValueModel) -> Option<TagView> {
    match item {
        ValueModel::Table(table) => Some(
            TagView {
                name: text_entry_or_empty(table, "name"@),
                description: text_entry_or_empty(table, "description"@),
            },
        ),
        _ => None,
    }
}

/// The configuration that a table declares: the string under `title`, and
/// the tags that the tables in the array under `tag` declare, in order.
pub open spec fn table_config(table: Map<Seq<char>, ValueModel>) -> IndexConfigView {
    IndexConfigView {
        title: text_entry_or_empty(table, "title"@),
        tags: match entry(table, "tag"@) {
            Some(ValueModel::Array(items)) => items.filter_map(|item: ValueModel| tag_of(item)),
            _ => Seq::empty(),
        },
    }
}

/// The configuration that a text declares, `None` where the text is not a
/// TOML document.
pub open spec fn text_config(text: Seq<char>) -> Option<IndexConfigView> {
    match toml_document(text) {
        Some(table) => Some(table_config(table)),
        None => None,
    }
}

/// The configuration that a text declares, empty where the text is not a
/// TOML document.
pub open spec fn text_config_or_empty(text: Seq<char>) -> IndexConfigView {
    match text_config(text) {
        Some(config) => config,
        None => IndexConfigView::empty(),
    }
}

/// The tags that the tables among `items` declare, in order.
fn tag_items(items: &Vec<toml::Value>) -> (tags: Vec<Tag>)
    ensures
        tags_view(tags@) == items@.map_values(|item: toml::Value| value_model(item)).filter_map(
            |item: ValueModel| tag_of(item),
        ),
{
    let ghost models = items@.map_values(|item: toml::Value| value_model(item));
    let ghost pick = |item: ValueModel| tag_of(item);
    let mut tags: Vec<Tag> = Vec::new();
    let mut i: usize = 0;
    while i < items.len()
        invariant
            i <= items.len(),
            models == items@.map_values(|item: toml::Value| value_model(item)),
            pick == |item: ValueModel| tag_of(item),
            tags_view(tags@) == models.take(i as int).filter_map(pick),
        decreases items.len() - i,
    {
        proof {
            models.lemma_filter_map_take_succ(pick, i as int);
        }
        if let Some(table) = items[i].as_table() {
            let tag = Tag {
                name: string_entry_or_empty(table, "name"),
                description: string_entry_or_empty(table, "description"),
            };
            tags.push(tag);
        }
        i += 1;
    }
    assert(models.take(items.len() as int) =~= models);
    tags
}

impl IndexConfig {
    /// The configuration with an empty title and no tags.
    pub fn new() -> (config: IndexConfig)
        ensures
            config@ == IndexConfigView::empty(),
    {
        let config = IndexConfig { title: String::new(), tags: Vec::new() };
        assert(config@.tags =~= Seq::empty());
        config
    }

    /// Reads the configuration that a parsed table declares.
    pub fn from_table(table: &toml::Table) -> (config: IndexConfig)
        ensures
            config@ == table_config(table_model(*table)),
    {
        let mut config = IndexConfig::new();
        config.title = string_entry_or_empty(table, "title");
        if let Some(value) = table_get(table, "tag") {
            if let Some(items) = value.as_array() {
                config.tags = tag_items(items);
            }
        }
        config
    }

    /// Parses a configuration. A text that is not a TOML document is an
    /// error.
    pub fn parse(text: &str) -> (r: Result<IndexConfig, ParseError>)
        ensures
            match r {
                Ok(config) => text_config(text@) == Some(config@),
                Err(_) => text_config(text@) is None,
            },
    {
        match parse_document(text) {
            Ok(table) => Ok(IndexConfig::from_table(&table)),
            Err(e) => Err(e),
        }
    }

    /// Parses a configuration, empty where the text is not a TOML document.
    pub fn from_toml(text: &str) -> (config: IndexConfig)
        ensures
            config@ == text_config_or_empty(text@),
    {
        match IndexConfig::parse(text) {
            Ok(config) => config,
            Err(_) => IndexConfig::new(),
        }
    }
}

} // verus!
