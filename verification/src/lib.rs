//! Markdown pages with embedded metadata, and a dated, tag-grouped index of them.

pub mod config;
pub mod date;
pub mod document;
pub mod front_matter;
pub mod index;
pub mod listing;
pub mod markdown_html;
pub mod metadata;
pub mod table;
pub mod text;
pub mod toml_doc;
