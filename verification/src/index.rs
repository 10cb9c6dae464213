//! The index page: one section for each configured tag, each listing the
//! titled documents that carry the tag.

use crate::config::{IndexConfig, IndexConfigView, Tag, TagView};
use crate::date::{date_english, listed_ahead, push_date_english, Date};
use crate::listing::{
    articles_view, date_sorted, dated, in_date_order, lemma_date_sorted_in_order,
    lemma_date_sorted_permutes, lemma_date_sorted_stable, lemma_filter_none, sort_by_date,
};
use crate::metadata::{Metadata, MetadataView};
use crate::text::strings_view;
use vstd::prelude::*;
use vstd::string::StringExecFns;

verus! {

/// Whether the section of the tag `name` lists `article`: the article
/// carries the tag and has a title.
pub open spec fn listed_under(article: MetadataView, name: Seq<char>) -> bool {
    article.tags.contains(name) && article.title is Some
}

/// The test that keeps the documents that the section of `name` lists.
pub open spec fn in_section(name: Seq<char>) -> spec_fn(MetadataView) -> bool {
    |article: MetadataView| listed_under(article, name)
}

/// The documents that the section of the tag `name` lists, in the order of
/// `articles`.
pub open spec fn section_articles(name: Seq<char>, articles: Seq<MetadataView>) -> Seq<
    MetadataView,
> {
    articles.filter(in_section(name))
}

/// What follows the link of a document: a line break and the date in long
/// English form, or nothing for an undated document.
pub open spec fn date_note(date: Option<Date>) -> Seq<char> {
    match date {
        Some(day) => "<br>"@ + date_english(day),
        None => Seq::empty(),
    }
}

/// The line that lists a document: a link that shows `title` and leads to
/// `file_name`, then the date note.
pub open spec fn link_line(title: Seq<char>, file_name: Seq<char>, date: Option<Date>) -> Seq<
    char,
> {
    "- ["@ + title + "]("@ + file_name + ")"@ + date_note(date) + "\n"@
}

/// The line that lists `article`; empty for a document without a title.
pub open spec fn entry_line(article: MetadataView) -> Seq<char> {
    match article.title {
        Some(title) => link_line(title, article.file_name, article.publish_date),
        None => Seq::empty(),
    }
}

/// `entry_line` as a function value.
pub open spec fn entry_lines() -> spec_fn(MetadataView) -> Seq<char> {
    |article: MetadataView| entry_line(article)
}

/// The lines of the section of the tag `name`.
pub open spec fn section_body(name: Seq<char>, articles: Seq<MetadataView>) -> Seq<char> {
    section_articles(name, articles).map_values(entry_lines()).flatten()
}

/// The heading of a section: the name of the tag on a second-level heading
/// line, then its description on a line of its own.
pub open spec fn section_heading(tag: TagView) -> Seq<char> {
    "## "@ + tag.name + "\n"@ + tag.description + "\n"@
}

/// The section of `tag`: its heading and its lines.
pub open spec fn section_text(tag: TagView, articles: Seq<MetadataView>) -> Seq<char> {
    section_heading(tag) + section_body(tag.name, articles)
}

/// `section_text` over `articles`, as a function value.
pub open spec fn sections_over(articles: Seq<MetadataView>) -> spec_fn(TagView) -> Seq<char> {
    |tag: TagView| section_text(tag, articles)
}

/// The heading of the index: its title, centered, on a first-level heading
/// line.
pub open spec fn index_heading(title: Seq<char>) -> Seq<char> {
    "# <center> "@ + title + " </center>\n"@
}

/// The markdown of the index of `articles`, taken in the order given: the
/// heading, then the section of each configured tag, in configured order.
pub open spec fn index_markdown(config: IndexConfigView, articles: Seq<MetadataView>) -> Seq<
    char,
> {
    index_heading(config.title) + config.tags.map_values(sections_over(articles)).flatten()
}

/// What a test keeps of a listing in date order is in date order.
pub proof fn lemma_filter_keeps_order(listing: Seq<MetadataView>, test: spec_fn(MetadataView) -> bool)
    requires
        in_date_order(listing),
    ensures
        in_date_order(listing.filter(test)),
    decreases listing.len(),
{
    reveal(Seq::filter);
    if listing.len() > 0 {
        let front = listing.drop_last();
        assert(in_date_order(front)) by {
            assert forall|i: int, j: int| 0 <= i < j < front.len() implies !listed_ahead(
                #[trigger] front[j].publish_date,
                #[trigger] front[i].publish_date,
            ) by {
                assert(front[i] == listing[i] && front[j] == listing[j]);
            }
        }
        lemma_filter_keeps_order(front, test);
        let kept = front.filter(test);
        if test(listing.last()) {
            assert forall|i: int| 0 <= i < kept.len() implies !listed_ahead(
                listing.last().publish_date,
                #[trigger] kept[i].publish_date,
            ) by {
                front.lemma_filter_contains_rev(test, kept[i]);
                let k = choose|k: int| 0 <= k < front.len() && front[k] == kept[i];
                assert(listing[k] == kept[i]);
            }
        }
    }
}

/// Two tests keep the same of a sequence in either order.
pub proof fn lemma_filters_commute<A>(items: Seq<A>, first: spec_fn(A) -> bool, second: spec_fn(A) -> bool)
    ensures
        items.filter(first).filter(second) == items.filter(second).filter(first),
    decreases items.len(),
{
    reveal(Seq::filter);
    if items.len() > 0 {
        let front = items.drop_last();
        lemma_filters_commute(front, first, second);
        front.filter(first).lemma_filter_push(items.last(), second);
        front.filter(second).lemma_filter_push(items.last(), first);
    }
}

/// Within a section of the index, a document that is listed strictly ahead
/// of another by date stands before it: later dates come first, and dated
/// documents before undated ones.
pub proof fn lemma_section_in_date_order(
    name: Seq<char>,
    articles: Seq<MetadataView>,
    i: int,
    j: int,
)
    requires
        0 <= i < section_articles(name, date_sorted(articles)).len(),
        0 <= j < section_articles(name, date_sorted(articles)).len(),
        listed_ahead(
            section_articles(name, date_sorted(articles))[i].publish_date,
            section_articles(name, date_sorted(articles))[j].publish_date,
        ),
    ensures
        i < j,
{
    lemma_date_sorted_in_order(articles);
    lemma_filter_keeps_order(date_sorted(articles), in_section(name));
}

/// Within a section of the index, documents of one date, or without a
/// date, stand in the order in which they were given.
pub proof fn lemma_section_stable(name: Seq<char>, articles: Seq<MetadataView>, date: Option<Date>)
    ensures
        section_articles(name, date_sorted(articles)).filter(dated(date)) == section_articles(
            name,
            articles,
        ).filter(dated(date)),
{
    lemma_filters_commute(date_sorted(articles), in_section(name), dated(date));
    lemma_date_sorted_stable(articles, date);
    lemma_filters_commute(articles, dated(date), in_section(name));
}

/// A section of the index lists a document exactly if the document was
/// given, carries the tag of the section and has a title. So a document
/// without a title is in no section.
pub proof fn lemma_section_lists(name: Seq<char>, articles: Seq<MetadataView>, article: MetadataView)
    ensures
        section_articles(name, date_sorted(articles)).contains(article) <==> articles.contains(
            article,
        ) && article.tags.contains(name) && article.title is Some,
{
    let listing = date_sorted(articles);
    assert(listing.contains(article) <==> articles.contains(article)) by {
        lemma_date_sorted_permutes(articles);
        vstd::seq_lib::to_multiset_contains(listing, article);
        vstd::seq_lib::to_multiset_contains(articles, article);
    }
    if section_articles(name, listing).contains(article) {
        listing.lemma_filter_contains_rev(in_section(name), article);
    }
    if listing.contains(article) && listed_under(article, name) {
        let k = choose|k: int| 0 <= k < listing.len() && listing[k] == article;
        listing.lemma_filter_contains(in_section(name), k);
    }
}

/// The lines of a section follow the order of the documents: the lines for
/// one run of documents followed by another are the lines for the first
/// run, then the lines for the second.
pub proof fn lemma_section_body_follows_order(
    name: Seq<char>,
    first: Seq<MetadataView>,
    second: Seq<MetadataView>,
)
    ensures
        section_body(name, first + second) == section_body(name, first) + section_body(
            name,
            second,
        ),
{
    let kept_first = section_articles(name, first);
    let kept_second = section_articles(name, second);
    Seq::filter_distributes_over_add(first, second, in_section(name));
    assert((kept_first + kept_second).map_values(entry_lines()) =~= kept_first.map_values(
        entry_lines(),
    ) + kept_second.map_values(entry_lines()));
    vstd::seq_lib::lemma_flatten_concat(
        kept_first.map_values(entry_lines()),
        kept_second.map_values(entry_lines()),
    );
}

/// A tag that no document is listed under still has its section: the
/// heading and the description, with no lines.
pub proof fn lemma_section_without_documents(tag: TagView, articles: Seq<MetadataView>)
    requires
        forall|i: int| 0 <= i < articles.len() ==> !listed_under(#[trigger] articles[i], tag.name),
    ensures
        section_text(tag, articles) == section_heading(tag),
{
    lemma_filter_none(articles, in_section(tag.name));
    assert(section_articles(tag.name, articles).map_values(entry_lines()) =~= Seq::empty());
}

/// A document that has no title, or carries no configured tag, leaves no
/// trace in the index: the index is the same with the document as without
/// it.
pub proof fn lemma_unlisted_document_leaves_no_trace(
    config: IndexConfigView,
    before: Seq<MetadataView>,
    article: MetadataView,
    after: Seq<MetadataView>,
)
    requires
        article.title is None || forall|i: int|
            0 <= i < config.tags.len() ==> !article.tags.contains(#[trigger] config.tags[i].name),
    ensures
        index_markdown(config, before + seq![article] + after) == index_markdown(
            config,
            before + after,
        ),
{
    let with = before + seq![article] + after;
    let without = before + after;
    assert forall|i: int| 0 <= i < config.tags.len() implies section_text(
        #[trigger] config.tags[i],
        with,
    ) == section_text(config.tags[i], without) by {
        let listed = in_section(config.tags[i].name);
        Seq::filter_distributes_over_add(before, seq![article], listed);
        Seq::filter_distributes_over_add(before + seq![article], after, listed);
        Seq::filter_distributes_over_add(before, after, listed);
        lemma_filter_none(seq![article], listed);
    }
    assert(config.tags.map_values(sections_over(with)) =~= config.tags.map_values(
        sections_over(without),
    ));
}

/// Whether the document carries the tag `name`.
pub fn has_tag(article: &Metadata, name: &String) -> (r: bool)
    ensures
        r == article@.tags.contains(name@),
{
    let mut i: usize = 0;
    while i < article.tags.len()
        invariant
            i <= article.tags.len(),
            forall|j: int| 0 <= j < i ==> strings_view(article.tags@)[j] != name@,
        decreases article.tags.len() - i,
    {
        if article.tags[i] == *name {
            assert(strings_view(article.tags@)[i as int] == name@);
            return true;
        }
        i += 1;
    }
    false
}

/// Appends the line that lists a document with the given title.
fn push_link_line(out: &mut String, title: &String, article: &Metadata)
    ensures
        final(out)@ == old(out)@ + link_line(title@, article@.file_name, article@.publish_date),
{
    out.append("- [");
    out.append(title.as_str());
    out.append("](");
    out.append(article.file_name.as_str());
    out.append(")");
    if let Some(date) = &article.publish_date {
        out.append("<br>");
        push_date_english(out, date);
    }
    out.append("\n");
}

/// Appends the section of `tag` over `articles`, taken in the order given.
fn push_section(out: &mut String, tag: &Tag, articles: &Vec<Metadata>)
    ensures
        final(out)@ == old(out)@ + section_text(tag@, articles_view(articles@)),
{
    let ghost listed = in_section(tag@.name);
    let ghost given = articles_view(articles@);
    out.append("## ");
    out.append(tag.name.as_str());
    out.append("\n");
    out.append(tag.description.as_str());
    out.append("\n");
    proof {
        reveal(Seq::filter);
    }
    let mut i: usize = 0;
    while i < articles.len()
        invariant
            i <= articles.len(),
            listed == in_section(tag@.name),
            given == articles_view(articles@),
            out@ == old(out)@ + section_heading(tag@) + given.take(i as int).filter(
                listed,
            ).map_values(entry_lines()).flatten(),
        decreases articles.len() - i,
    {
        let article = &articles[i];
        let ghost kept = given.take(i as int).filter(listed);
        proof {
            assert(given.take(i + 1) =~= given.take(i as int).push(article@));
            given.take(i as int).lemma_filter_push(article@, listed);
        }
        if has_tag(article, &tag.name) {
            if let Some(title) = &article.title {
                push_link_line(out, title, article);
                proof {
                    kept.lemma_push_map_commute(entry_lines(), article@);
                    kept.map_values(entry_lines()).lemma_flatten_push(entry_line(article@));
                }
            }
        }
        i += 1;
    }
    assert(given.take(articles.len() as int) =~= given);
}

/// Writes the markdown of the index of `articles`, taken in the order
/// given.
pub fn render_index(config: &IndexConfig, articles: &Vec<Metadata>) -> (markdown: String)
    ensures
        markdown@ == index_markdown(config@, articles_view(articles@)),
{
    let ghost given = articles_view(articles@);
    let ghost tags = config@.tags;
    let mut markdown = String::new();
    markdown.append("# <center> ");
    markdown.append(config.title.as_str());
    markdown.append(" </center>\n");
    let mut i: usize = 0;
    while i < config.tags.len()
        invariant
            i <= config.tags.len(),
            given == articles_view(articles@),
            tags == config@.tags,
            markdown@ == index_heading(config@.title) + tags.take(i as int).map_values(
                sections_over(given),
            ).flatten(),
        decreases config.tags.len() - i,
    {
        let ghost done = tags.take(i as int).map_values(sections_over(given));
        push_section(&mut markdown, &config.tags[i], articles);
        proof {
            tags.lemma_map_take_succ(sections_over(given), i as int);
            done.lemma_flatten_push(section_text(tags[i as int], given));
        }
        i += 1;
    }
    assert(tags.take(config.tags.len() as int) =~= tags);
    markdown
}

/// Writes the markdown of the index of `articles`: puts them in the order
/// of the index, then lists them by tag.
pub fn build_index(config: &IndexConfig, articles: Vec<Metadata>) -> (markdown: String)
    ensures
        markdown@ == index_markdown(config@, date_sorted(articles_view(articles@))),
{
    let mut listing = articles;
    sort_by_date(&mut listing);
    render_index(config, &listing)
}

} // verus!
