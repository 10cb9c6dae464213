//! The order in which an index lists documents: by date of publication,
//! latest first, undated documents last, and documents that tie in the
//! order in which they were given.

use crate::date::{is_listed_ahead, listed_ahead, Date};
use crate::metadata::{Metadata, MetadataView};
use vstd::prelude::*;

verus! {

/// The mathematical values of a sequence of documents' metadata.
pub open spec fn articles_view(articles: Seq<Metadata>) -> Seq<MetadataView> {
    articles.map_values(|article: Metadata| article@)
}

/// The first position at or after `from` whose document a document dated
/// `date` is listed strictly ahead of, or the length of `listing` if there
/// is none.
pub open spec fn place_from(listing: Seq<MetadataView>, date: Option<Date>, from: int) -> int
    decreases listing.len() - from,
{
    if 0 <= from < listing.len() && !listed_ahead(date, listing[from].publish_date) {
        place_from(listing, date, from + 1)
    } else {
        from
    }
}

/// Where a document dated `date` enters `listing`: behind every document
/// that it is not listed strictly ahead of, up to the first that it is.
pub open spec fn place_of(listing: Seq<MetadataView>, date: Option<Date>) -> int {
    place_from(listing, date, 0)
}

/// The documents in the order of the index: each document in turn enters
/// the listing of those given before it, at its place.
pub open spec fn date_sorted(articles: Seq<MetadataView>) -> Seq<MetadataView>
    decreases articles.len(),
{
    if articles.len() == 0 {
        Seq::empty()
    } else {
        let listing = date_sorted(articles.drop_last());
        listing.insert(place_of(listing, articles.last().publish_date), articles.last())
    }
}

/// Whether no document of `listing` stands behind one that it is listed
/// strictly ahead of.
pub open spec fn in_date_order(listing: Seq<MetadataView>) -> bool {
    forall|i: int, j: int|
        0 <= i < j < listing.len() ==> !listed_ahead(
            #[trigger] listing[j].publish_date,
            #[trigger] listing[i].publish_date,
        )
}

/// The test that keeps the documents dated `date`.
pub open spec fn dated(date: Option<Date>) -> spec_fn(MetadataView) -> bool {
    |article: MetadataView| article.publish_date == date
}

/// `place_from` stops at the first document that `date` is listed ahead of.
pub proof fn lemma_place_from(listing: Seq<MetadataView>, date: Option<Date>, from: int)
    requires
        0 <= from <= listing.len(),
    ensures
        from <= place_from(listing, date, from) <= listing.len(),
        place_from(listing, date, from) < listing.len() ==> listed_ahead(
            date,
            listing[place_from(listing, date, from)].publish_date,
        ),
        forall|k: int|
            from <= k < place_from(listing, date, from) ==> !listed_ahead(
                date,
                #[trigger] listing[k].publish_date,
            ),
    decreases listing.len() - from,
{
    if from < listing.len() && !listed_ahead(date, listing[from].publish_date) {
        lemma_place_from(listing, date, from + 1);
    }
}

/// A document that enters a listing in date order at its place leaves the
/// listing in date order.
pub proof fn lemma_insert_keeps_order(listing: Seq<MetadataView>, article: MetadataView)
    requires
        in_date_order(listing),
    ensures
        in_date_order(listing.insert(place_of(listing, article.publish_date), article)),
{
    lemma_place_from(listing, article.publish_date, 0);
}

/// The index is in date order: no document stands behind one that it is
/// listed strictly ahead of. So a later date comes before an earlier one,
/// and every dated document before every undated one.
pub proof fn lemma_date_sorted_in_order(articles: Seq<MetadataView>)
    ensures
        in_date_order(date_sorted(articles)),
        date_sorted(articles).len() == articles.len(),
    decreases articles.len(),
{
    if articles.len() > 0 {
        lemma_date_sorted_in_order(articles.drop_last());
        let listing = date_sorted(articles.drop_last());
        lemma_place_from(listing, articles.last().publish_date, 0);
        lemma_insert_keeps_order(listing, articles.last());
    }
}

/// The index lists the documents that were given, each as often as it was
/// given.
pub proof fn lemma_date_sorted_permutes(articles: Seq<MetadataView>)
    ensures
        date_sorted(articles).to_multiset() == articles.to_multiset(),
    decreases articles.len(),
{
    broadcast use vstd::seq_lib::to_multiset_insert, vstd::seq_lib::to_multiset_build;

    if articles.len() > 0 {
        lemma_date_sorted_permutes(articles.drop_last());
        let listing = date_sorted(articles.drop_last());
        lemma_place_from(listing, articles.last().publish_date, 0);
        assert(articles =~= articles.drop_last().push(articles.last()));
    } else {
        assert(articles =~= Seq::empty());
    }
}

/// Documents of one date, or without a date, stand in the index in the
/// order in which they were given.
pub proof fn lemma_date_sorted_stable(articles: Seq<MetadataView>, date: Option<Date>)
    ensures
        date_sorted(articles).filter(dated(date)) == articles.filter(dated(date)),
    decreases articles.len(),
{
    reveal(Seq::filter);
    if articles.len() > 0 {
        let earlier = articles.drop_last();
        let article = articles.last();
        let listing = date_sorted(earlier);
        let k = place_of(listing, article.publish_date);
        lemma_date_sorted_stable(earlier, date);
        lemma_date_sorted_in_order(earlier);
        lemma_place_from(listing, article.publish_date, 0);
        let front = listing.take(k);
        let back = listing.skip(k);
        assert(listing =~= front + back);
        Seq::filter_distributes_over_add(front, back, dated(date));
        Seq::filter_distributes_over_add(front.push(article), back, dated(date));
        front.lemma_filter_push(article, dated(date));
        if article.publish_date == date {
            lemma_filter_none(back, dated(date));
        }
    }
}

/// A test that no item passes keeps nothing.
pub proof fn lemma_filter_none<A>(items: Seq<A>, test: spec_fn(A) -> bool)
    requires
        forall|i: int| 0 <= i < items.len() ==> !test(#[trigger] items[i]),
    ensures
        items.filter(test) == Seq::<A>::empty(),
    decreases items.len(),
{
    reveal(Seq::filter);
    if items.len() > 0 {
        lemma_filter_none(items.drop_last(), test);
    }
}

/// Puts the documents in the order of the index: latest first, by year,
/// then month, then day; undated documents last; documents that tie in the
/// order in which they stood.
pub fn sort_by_date(articles: &mut Vec<Metadata>)
    ensures
        articles_view(final(articles)@) == date_sorted(articles_view(old(articles)@)),
{
    let ghost given = articles_view(articles@);
    let n = articles.len();
    let mut i: usize = 0;
    while i < n
        invariant
            i <= n,
            n == articles.len(),
            given == articles_view(old(articles)@),
            given.len() == n,
            articles_view(articles@).take(i as int) == date_sorted(given.take(i as int)),
            articles_view(articles@).skip(i as int) == given.skip(i as int),
        decreases n - i,
    {
        let ghost before = articles_view(articles@);
        let ghost listing = before.take(i as int);
        let article = articles.remove(i);
        assert(article@ == given[i as int]) by {
            assert(before.skip(i as int)[0] == given.skip(i as int)[0]);
        }
        let mut k: usize = 0;
        while k < i && !is_listed_ahead(&article.publish_date, &articles[k].publish_date)
            invariant
                k <= i < n,
                articles.len() == n - 1,
                listing.len() == i,
                forall|j: int| 0 <= j < i ==> listing[j] == (#[trigger] articles@[j])@,
                place_of(listing, article.publish_date) == place_from(
                    listing,
                    article.publish_date,
                    k as int,
                ),
            decreases i - k,
        {
            k += 1;
        }
        articles.insert(k, article);
        proof {
            let after = articles_view(articles@);
            assert(given.take(i + 1).drop_last() =~= given.take(i as int));
            let rest = after.skip(i + 1);
            assert(rest =~= given.skip(i + 1)) by {
                assert forall|j: int| 0 <= j < rest.len() implies #[trigger] rest[j] == given.skip(
                    i + 1,
                )[j] by {
                    assert(before.skip(i as int)[j + 1] == given.skip(i as int)[j + 1]);
                }
            }
        }
        i += 1;
    }
    assert(given.take(n as int) =~= given);
}

} // verus!
