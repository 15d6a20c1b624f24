//! The search path: turns a page of creator summaries into the hits to
//! show. A summary that lacks what a hit needs is left out; the others
//! are kept.

use crate::entry::{display_name, show_name};
use crate::errors::{anilist_data_format, ServiceError, ServiceErrorView};
use crate::merge::{lemma_present_concat, present};
use crate::records::{PersonName, PersonNameView};
use crate::text::{decimal, push_decimal, trim, trimmed};
use vstd::prelude::*;

verus! {

/// What a creator's identifier is appended to for the link of their feed.
pub const FEED_LINK_PREFIX: &'static str = "https://creatorfollower.com/rss/anilist/staff/";

/// Diagnostic for a search payload without a listing.
pub const SEARCH_STAFF_NONE: &'static str = "SearchQueryStaff is None";

/// Diagnostic for a listing without results.
pub const SEARCH_RESULTS_NONE: &'static str = "SearchQueryStaffResults is None";

/// Diagnostic for a listing without its counts.
pub const PAGE_INFO_NONE: &'static str = "PageInfo is None";

/// Diagnostic for a listing without the number of creators found.
pub const TOTAL_NONE: &'static str = "page_info.total is None";

/// The link of the feed of the creator with the given identifier.
pub open spec fn staff_link(staff_id: int) -> Seq<char> {
    FEED_LINK_PREFIX@ + decimal(staff_id)
}

/// Builds the link of the feed of the creator with the given identifier.
pub fn anilist_staff_link(staff_id: i64) -> (link: String)
    ensures
        link@ == staff_link(staff_id as int),
{
    let mut link = String::from_str(FEED_LINK_PREFIX);
    push_decimal(&mut link, staff_id);
    link
}

/// One creator as a search describes them.
#[derive(Debug)]
pub struct StaffSummary {
    pub id: Option<i64>,
    pub name: Option<PersonName>,
    pub image: Option<String>,
    pub primary_occupations: Option<Vec<Option<String>>>,
}

/// Mathematical model of a [`StaffSummary`].
pub struct StaffSummaryView {
    pub id: Option<i64>,
    pub name: Option<PersonNameView>,
    pub image: Option<Seq<char>>,
    pub primary_occupations: Option<Seq<Option<Seq<char>>>>,
}

impl View for StaffSummary {
    type V = StaffSummaryView;

    open spec fn view(&self) -> StaffSummaryView {
        StaffSummaryView {
            id: self.id,
            name: self.name.deep_view(),
            image: self.image.deep_view(),
            primary_occupations: self.primary_occupations.deep_view(),
        }
    }
}

impl DeepView for StaffSummary {
    type V = StaffSummaryView;

    open spec fn deep_view(&self) -> StaffSummaryView {
        self@
    }
}

/// How many creators matched in all.
#[derive(Clone, Copy, Debug)]
pub struct PageInfo {
    pub total: Option<i64>,
}

/// One page of search results.
#[derive(Debug)]
pub struct SearchListing {
    pub page_info: Option<PageInfo>,
    pub results: Option<Vec<Option<StaffSummary>>>,
}

/// Mathematical model of a [`SearchListing`].
pub struct SearchListingView {
    pub page_info: Option<PageInfo>,
    pub results: Option<Seq<Option<StaffSummaryView>>>,
}

impl View for SearchListing {
    type V = SearchListingView;

    open spec fn view(&self) -> SearchListingView {
        SearchListingView { page_info: self.page_info, results: self.results.deep_view() }
    }
}

/// The payload of one successful search.
#[derive(Debug)]
pub struct SearchPage {
    pub staff: Option<SearchListing>,
}

/// Mathematical model of a [`SearchPage`].
pub struct SearchPageView {
    pub staff: Option<SearchListingView>,
}

impl View for SearchPage {
    type V = SearchPageView;

    open spec fn view(&self) -> SearchPageView {
        SearchPageView {
            staff: match self.staff {
                Some(listing) => Some(listing@),
                None => None,
            },
        }
    }
}

/// One creator matching a query, ready to show.
#[derive(Debug)]
pub struct SearchHit {
    pub primary_occupations: Vec<String>,
    pub show_name: String,
    pub image_link: String,
    pub rss_link: String,
}

/// Mathematical model of a [`SearchHit`].
pub struct SearchHitView {
    pub primary_occupations: Seq<Seq<char>>,
    pub show_name: Seq<char>,
    pub image_link: Seq<char>,
    pub rss_link: Seq<char>,
}

impl View for SearchHit {
    type V = SearchHitView;

    open spec fn view(&self) -> SearchHitView {
        SearchHitView {
            primary_occupations: self.primary_occupations.deep_view(),
            show_name: self.show_name@,
            image_link: self.image_link@,
            rss_link: self.rss_link@,
        }
    }
}

impl DeepView for SearchHit {
    type V = SearchHitView;

    open spec fn deep_view(&self) -> SearchHitView {
        self@
    }
}

/// The hits of a search together with its counts.
#[derive(Debug)]
pub struct SearchResults {
    pub num_found_results: i64,
    pub num_results_on_page: u32,
    pub search_results: Vec<SearchHit>,
}

/// Mathematical model of a [`SearchResults`].
pub struct SearchResultsView {
    pub num_found_results: int,
    pub num_results_on_page: int,
    pub search_results: Seq<SearchHitView>,
}

impl View for SearchResults {
    type V = SearchResultsView;

    open spec fn view(&self) -> SearchResultsView {
        SearchResultsView {
            num_found_results: self.num_found_results as int,
            num_results_on_page: self.num_results_on_page as int,
            search_results: self.search_results.deep_view(),
        }
    }
}

/// Each of the given texts without its surrounding white space.
pub open spec fn each_trimmed(texts: Seq<Seq<char>>) -> Seq<Seq<char>> {
    Seq::new(texts.len(), |i: int| trimmed(texts[i]))
}

/// The occupations to show: those present, each trimmed; none when the
/// list itself is absent.
pub open spec fn occupations(listed: Option<Seq<Option<Seq<char>>>>) -> Seq<Seq<char>> {
    match listed {
        Some(listed) => each_trimmed(present(listed)),
        None => Seq::empty(),
    }
}

/// The hit a summary makes. There is none when the summary is absent or
/// lacks an identifier, a name to show, or an image.
pub open spec fn hit_of(summary: Option<StaffSummaryView>) -> Option<SearchHitView> {
    match summary {
        Some(summary) => match (summary.id, display_name(summary.name), summary.image) {
            (Some(id), Some(show_name), Some(image_link)) => Some(
                SearchHitView {
                    primary_occupations: occupations(summary.primary_occupations),
                    show_name,
                    image_link,
                    rss_link: staff_link(id as int),
                },
            ),
            _ => None,
        },
        None => None,
    }
}

/// For each summary, the hit it makes.
pub open spec fn hits_at(summaries: Seq<Option<StaffSummaryView>>) -> Seq<Option<SearchHitView>> {
    Seq::new(summaries.len(), |i: int| hit_of(summaries[i]))
}

/// The hits of the summaries, in their order.
pub open spec fn hits_of(summaries: Seq<Option<StaffSummaryView>>) -> Seq<SearchHitView> {
    present(hits_at(summaries))
}

/// What a search page amounts to: its hits with the number of creators
/// found in all and the number of hits shown. The listing, its results,
/// and the total must be present.
pub open spec fn search_outcome(page: SearchPageView) -> Result<
    SearchResultsView,
    ServiceErrorView,
> {
    match page.staff {
        None => Err(ServiceErrorView::DataFormat(SEARCH_STAFF_NONE@)),
        Some(listing) => match listing.results {
            None => Err(ServiceErrorView::DataFormat(SEARCH_RESULTS_NONE@)),
            Some(summaries) => match listing.page_info {
                None => Err(ServiceErrorView::DataFormat(PAGE_INFO_NONE@)),
                Some(info) => match info.total {
                    None => Err(ServiceErrorView::DataFormat(TOTAL_NONE@)),
                    Some(total) => if hits_of(summaries).len() > u32::MAX {
                        Err(ServiceErrorView::Internal)
                    } else {
                        Ok(
                            SearchResultsView {
                                num_found_results: total as int,
                                num_results_on_page: hits_of(summaries).len() as int,
                                search_results: hits_of(summaries),
                            },
                        )
                    },
                },
            },
        },
    }
}

/// The search is lenient: a summary that makes no hit is left out alone.
/// The hits of the summaries before it and after it are all kept, in
/// order.
pub proof fn lemma_incomplete_summary_is_dropped_alone(
    before: Seq<Option<StaffSummaryView>>,
    summary: Option<StaffSummaryView>,
    after: Seq<Option<StaffSummaryView>>,
)
    requires
        summary matches Some(s) ==> s.id is None || s.image is None || display_name(s.name) is None,
    ensures
        hits_of(before + seq![summary] + after) == hits_of(before) + hits_of(after),
{
    assert(hits_at(before + seq![summary] + after) =~= hits_at(before) + hits_at(seq![summary])
        + hits_at(after));
    lemma_present_concat(hits_at(before) + hits_at(seq![summary]), hits_at(after));
    lemma_present_concat(hits_at(before), hits_at(seq![summary]));
    assert(hits_at(seq![summary]).drop_last() =~= Seq::empty());
    assert(present(hits_at(seq![summary])) =~= Seq::empty()) by {
        assert(hits_at(seq![summary]).last() == hit_of(summary));
        assert(present(hits_at(seq![summary]).drop_last()) =~= Seq::empty());
    }
    assert(hits_of(before) + Seq::<SearchHitView>::empty() =~= hits_of(before));
}

/// A summary with an identifier, a name to show and an image always makes
/// a hit, wherever in the page it stands and whatever the others lack.
pub proof fn lemma_complete_summary_is_kept(
    before: Seq<Option<StaffSummaryView>>,
    summary: StaffSummaryView,
    after: Seq<Option<StaffSummaryView>>,
)
    requires
        summary.id is Some,
        summary.image is Some,
        display_name(summary.name) is Some,
    ensures
        hit_of(Some(summary)) is Some,
        hits_of(before + seq![Some(summary)] + after) == hits_of(before).push(
            hit_of(Some(summary))->Some_0,
        ) + hits_of(after),
{
    let one = seq![Some(summary)];
    assert(hits_at(before + one + after) =~= hits_at(before) + hits_at(one) + hits_at(after));
    lemma_present_concat(hits_at(before) + hits_at(one), hits_at(after));
    lemma_present_concat(hits_at(before), hits_at(one));
    assert(present(hits_at(one)) =~= seq![hit_of(Some(summary))->Some_0]) by {
        assert(hits_at(one).last() == hit_of(Some(summary)));
        assert(hits_at(one).drop_last() =~= Seq::empty());
        assert(present(hits_at(one).drop_last()) =~= Seq::empty());
    }
    assert(hits_of(before) + seq![hit_of(Some(summary))->Some_0] =~= hits_of(before).push(
        hit_of(Some(summary))->Some_0,
    ));
}

/// The occupations to show of those listed.
pub fn list_occupations(listed: Option<Vec<Option<String>>>) -> (shown: Vec<String>)
    ensures
        shown.deep_view() == occupations(listed.deep_view()),
{
    let mut shown: Vec<String> = Vec::new();
    match listed {
        Some(listed) => {
            let ghost all = listed.deep_view();
            assert(all.take(0) =~= Seq::empty());
            assert(shown.deep_view() =~= each_trimmed(present(all.take(0))));
            for occupation in it: listed.into_iter()
                invariant
                    it.seq() == listed@,
                    all == listed.deep_view(),
                    shown.deep_view() == each_trimmed(present(all.take(it.index() as int))),
            {
                let ghost index = it.index() as int;
                let ghost before = shown.deep_view();
                proof {
                    assert(all.take(index + 1).drop_last() =~= all.take(index));
                    assert(all.take(index + 1).last() == occupation.deep_view());
                }
                match occupation {
                    Some(occupation) => {
                        let text = trim(occupation.as_str());
                        shown.push(text);
                        assert(shown.deep_view() =~= before.push(trimmed(occupation@)));
                        assert(present(all.take(index + 1)) == present(all.take(index)).push(
                            occupation@,
                        ));
                        assert(shown.deep_view() =~= each_trimmed(
                            present(all.take(index + 1)),
                        ));
                    },
                    None => {},
                }
            }
            assert(all.take(listed@.len() as int) =~= all);
        },
        None => {
            assert(shown.deep_view() =~= Seq::empty());
        },
    }
    shown
}

/// The hit a summary makes, if it makes one.
pub fn make_hit(summary: Option<StaffSummary>) -> (hit: Option<SearchHit>)
    ensures
        hit.deep_view() == hit_of(summary.deep_view()),
{
    let summary = match summary {
        Some(summary) => summary,
        None => { return None; },
    };
    let StaffSummary { id, name, image, primary_occupations } = summary;
    match (id, show_name(name), image) {
        (Some(id), Some(show_name), Some(image_link)) => Some(
            SearchHit {
                primary_occupations: list_occupations(primary_occupations),
                show_name,
                image_link,
                rss_link: anilist_staff_link(id),
            },
        ),
        _ => None,
    }
}

/// Turns a search page into the hits to show and their counts.
pub fn search_results(page: SearchPage) -> (outcome: Result<SearchResults, ServiceError>)
    ensures
        match outcome {
            Ok(results) => search_outcome(page@) == Ok::<SearchResultsView, ServiceErrorView>(
                results@,
            ),
            Err(error) => search_outcome(page@) == Err::<SearchResultsView, ServiceErrorView>(
                error@,
            ),
        },
{
    let listing = match page.staff {
        Some(listing) => listing,
        None => { return Err(anilist_data_format(SEARCH_STAFF_NONE)); },
    };
    let summaries = match listing.results {
        Some(summaries) => summaries,
        None => { return Err(anilist_data_format(SEARCH_RESULTS_NONE)); },
    };
    let ghost all = hits_at(summaries.deep_view());
    let mut hits: Vec<SearchHit> = Vec::new();
    assert(hits.deep_view() =~= present(all.take(0)));
    for summary in it: summaries.into_iter()
        invariant
            it.seq() == summaries@,
            all == hits_at(summaries.deep_view()),
            hits.deep_view() == present(all.take(it.index() as int)),
    {
        let ghost index = it.index() as int;
        let ghost before = hits.deep_view();
        proof {
            assert(all.take(index + 1).drop_last() =~= all.take(index));
            assert(all.take(index + 1).last() == all[index]);
            assert(summaries.deep_view()[index] == summary.deep_view());
        }
        match make_hit(summary) {
            Some(hit) => {
                hits.push(hit);
                assert(hits.deep_view() =~= before.push(hit@));
            },
            None => {},
        }
    }
    assert(all.take(summaries@.len() as int) =~= all);
    let info = match listing.page_info {
        Some(info) => info,
        None => { return Err(anilist_data_format(PAGE_INFO_NONE)); },
    };
    let total = match info.total {
        Some(total) => total,
        None => { return Err(anilist_data_format(TOTAL_NONE)); },
    };
    if hits.len() > u32::MAX as usize {
        return Err(ServiceError::InternalError);
    }
    let shown = hits.len() as u32;
    Ok(SearchResults { num_found_results: total, num_results_on_page: shown, search_results: hits })
}

} // verus!
