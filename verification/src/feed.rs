//! The feed assembler: orders the finished entries newest first and
//! attaches the creator's own details.

use crate::entry::{
    display_name, lemma_incomplete_date_never_resolves, resolved_date, show_name, synthesize,
    synthesized, FeedEntry, FeedEntryView,
};
use crate::errors::{anilist_data_format, ServiceError, ServiceErrorView};
use crate::merge::{
    aligned, lemma_merge_is_positional_across_pages, lemma_present_keeps, merge, merged, paired,
    provisional_pairs, Credit, CreditView,
};
use crate::order::{is_newest_first, is_stable_sort, sort_entries};
use crate::pager::{page_parts, roles_of, works_of, Collected, CollectedView};
use crate::records::StaffPageView;
use vstd::prelude::*;

verus! {

/// The description of a creator who has none.
pub const NO_STAFF_DESCRIPTION: &'static str = "No description provided by Anilist for this staff.";

/// Diagnostic for a creator without a name to show.
pub const NAME_NONE: &'static str = "Staff.name is None";

/// Diagnostic for a creator without a canonical link.
pub const SITE_URL_NONE: &'static str = "Staff.siteUrl is None";

/// Diagnostic for a creator without an image.
pub const IMAGE_NONE: &'static str = "Staff.image is None";

/// The entries the credits become under the given creator name, in
/// input order, or the error of the first credit that fails.
pub open spec fn entries_of(creator: Seq<char>, credits: Seq<CreditView>) -> Result<
    Seq<FeedEntryView>,
    ServiceErrorView,
>
    decreases credits.len(),
{
    if credits.len() == 0 {
        Ok(Seq::empty())
    } else {
        match entries_of(creator, credits.drop_last()) {
            Ok(entries) => match synthesized(creator, credits.last()) {
                Ok(entry) => Ok(entries.push(entry)),
                Err(error) => Err(error),
            },
            Err(error) => Err(error),
        }
    }
}

/// The finished output handed to presentation.
#[derive(Debug)]
pub struct FeedResult {
    title: String,
    link: String,
    description: String,
    image: String,
    entries: Vec<FeedEntry>,
}

/// Mathematical model of a [`FeedResult`].
pub struct FeedResultView {
    pub title: Seq<char>,
    pub link: Seq<char>,
    pub description: Seq<char>,
    pub image: Seq<char>,
    pub entries: Seq<FeedEntryView>,
}

impl View for FeedResult {
    type V = FeedResultView;

    closed spec fn view(&self) -> FeedResultView {
        FeedResultView {
            title: self.title@,
            link: self.link@,
            description: self.description@,
            image: self.image@,
            entries: self.entries.deep_view(),
        }
    }
}

/// The feed before its entries are ordered: the creator's display name,
/// link, description (or the fallback), image, and the entries in input
/// order. The creator must have a name, every credit must resolve, and
/// link and image must be present; the first of these to fail decides the
/// error.
pub open spec fn planned(collected: CollectedView) -> Result<FeedResultView, ServiceErrorView> {
    match display_name(collected.creator.name) {
        None => Err(ServiceErrorView::DataFormat(NAME_NONE@)),
        Some(title) => match merged(collected.roles, collected.works) {
            Err(error) => Err(error),
            Ok(credits) => match entries_of(title, credits) {
                Err(error) => Err(error),
                Ok(entries) => match collected.creator.site_url {
                    None => Err(ServiceErrorView::DataFormat(SITE_URL_NONE@)),
                    Some(link) => match collected.creator.image {
                        None => Err(ServiceErrorView::DataFormat(IMAGE_NONE@)),
                        Some(image) => Ok(
                            FeedResultView {
                                title,
                                link,
                                description: match collected.creator.description {
                                    Some(description) => description,
                                    None => NO_STAFF_DESCRIPTION@,
                                },
                                image,
                                entries,
                            },
                        ),
                    },
                },
            },
        },
    }
}

/// `feed` is the feed of what was collected: the planned feed with its
/// entries ordered newest first, entries of the same date in input order.
pub open spec fn is_feed_of(collected: CollectedView, feed: FeedResultView) -> bool {
    &&& planned(collected) matches Ok(plan)
    &&& feed.title == plan.title
    &&& feed.link == plan.link
    &&& feed.description == plan.description
    &&& feed.image == plan.image
    &&& is_stable_sort(plan.entries, feed.entries)
}

impl FeedResult {
    #[verifier::type_invariant]
    spec fn ordered(self) -> bool {
        is_newest_first(self.entries.deep_view())
    }

    /// The creator's display name.
    pub fn title(&self) -> (title: &str)
        ensures
            title@ == self@.title,
    {
        self.title.as_str()
    }

    /// The creator's canonical link.
    pub fn link(&self) -> (link: &str)
        ensures
            link@ == self@.link,
    {
        self.link.as_str()
    }

    /// The creator's description, or the fallback text.
    pub fn description(&self) -> (description: &str)
        ensures
            description@ == self@.description,
    {
        self.description.as_str()
    }

    /// The address of the creator's image.
    pub fn image(&self) -> (image: &str)
        ensures
            image@ == self@.image,
    {
        self.image.as_str()
    }

    /// The entries, newest first.
    pub fn entries(&self) -> (entries: &Vec<FeedEntry>)
        ensures
            entries.deep_view() == self@.entries,
            is_newest_first(self@.entries),
    {
        proof {
            use_type_invariant(self);
        }
        &self.entries
    }
}

/// The credits of well-formed pages, each page merged by itself, in page
/// order.
pub open spec fn credits_of(pages: Seq<StaffPageView>) -> Seq<CreditView>
    decreases pages.len(),
{
    if pages.len() == 0 {
        Seq::empty()
    } else {
        credits_of(pages.drop_last()) + provisional_pairs(
            page_parts(pages.last())->Ok_0.roles,
            page_parts(pages.last())->Ok_0.works,
        )
    }
}

/// Merging what was collected over several pages pairs every role with
/// the work of its own page and position: the outcome is the credits of
/// the first page, then those of the second, and so on.
pub proof fn lemma_merge_follows_pages(pages: Seq<StaffPageView>)
    requires
        forall|i: int| 0 <= i < pages.len() ==> page_parts(#[trigger] pages[i]) is Ok,
    ensures
        roles_of(pages).len() == works_of(pages).len(),
        merged(roles_of(pages), works_of(pages)) == Ok::<Seq<CreditView>, ServiceErrorView>(
            credits_of(pages),
        ),
    decreases pages.len(),
{
    if pages.len() == 0 {
        assert(provisional_pairs(roles_of(pages), works_of(pages)) =~= Seq::empty());
    } else {
        let earlier = pages.drop_last();
        assert forall|i: int| 0 <= i < earlier.len() implies page_parts(#[trigger] earlier[i]) is Ok by {
            assert(earlier[i] == pages[i]);
        }
        lemma_merge_follows_pages(earlier);
        let last = page_parts(pages.last())->Ok_0;
        lemma_merge_is_positional_across_pages(
            roles_of(earlier),
            works_of(earlier),
            last.roles,
            last.works,
        );
    }
}

/// The feed is strict: one credit that does not resolve fails the whole,
/// whatever the other credits hold.
pub proof fn lemma_one_failing_credit_fails_all(
    creator: Seq<char>,
    credits: Seq<CreditView>,
    failing: int,
)
    requires
        0 <= failing < credits.len(),
        synthesized(creator, credits[failing]) is Err,
    ensures
        entries_of(creator, credits) is Err,
    decreases credits.len(),
{
    if failing < credits.len() - 1 {
        lemma_one_failing_credit_fails_all(creator, credits.drop_last(), failing);
    }
}

/// When every credit resolves, each becomes one entry, in input order:
/// none is dropped and none is added.
pub proof fn lemma_entries_follow_credits(creator: Seq<char>, credits: Seq<CreditView>)
    requires
        forall|i: int| 0 <= i < credits.len() ==> synthesized(creator, #[trigger] credits[i]) is Ok,
    ensures
        entries_of(creator, credits) is Ok,
        entries_of(creator, credits)->Ok_0.len() == credits.len(),
        forall|i: int|
            0 <= i < credits.len() ==> Ok::<FeedEntryView, ServiceErrorView>(
                #[trigger] entries_of(creator, credits)->Ok_0[i],
            ) == synthesized(creator, credits[i]),
    decreases credits.len(),
{
    if credits.len() > 0 {
        let earlier = credits.drop_last();
        assert forall|i: int| 0 <= i < earlier.len() implies synthesized(
            creator,
            #[trigger] earlier[i],
        ) is Ok by {
            assert(earlier[i] == credits[i]);
        }
        lemma_entries_follow_credits(creator, earlier);
        assert(synthesized(creator, credits[credits.len() - 1]) is Ok);
        assert forall|i: int| 0 <= i < credits.len() implies Ok::<FeedEntryView, ServiceErrorView>(
            #[trigger] entries_of(creator, credits)->Ok_0[i],
        ) == synthesized(creator, credits[i]) by {
            if i < earlier.len() {
                assert(earlier[i] == credits[i]);
                assert(entries_of(creator, credits)->Ok_0[i] == entries_of(creator, earlier)->Ok_0[i]);
            }
        }
    }
}

/// A release date is all or nothing, for the whole request. A work whose
/// date names some but not all of year, month and day, credited under a
/// role with a label, passes the coarse filter and then makes the feed
/// fail: it is neither dropped nor given a made-up date.
pub proof fn lemma_partial_date_fails_the_feed(collected: CollectedView, at: int)
    requires
        collected.roles.len() == collected.works.len(),
        0 <= at < collected.roles.len(),
        collected.roles[at] matches Some(role) && role.label matches Some(label) && label.len() > 0,
        collected.works[at] matches Some(work) && work.start_date matches Some(date)
            && date.has_any_component() && !date.is_complete(),
    ensures
        paired(collected.roles[at], collected.works[at]) is Some,
        planned(collected) is Err,
{
    let pairs = aligned(collected.roles, collected.works);
    assert(pairs[at] == paired(collected.roles[at], collected.works[at]));
    let kept = lemma_present_keeps(pairs, at);
    let credits = provisional_pairs(collected.roles, collected.works);
    let date = collected.works[at]->Some_0.start_date->Some_0;
    lemma_incomplete_date_never_resolves(date);
    assert(credits[kept].work.start_date == Some(date));
    match display_name(collected.creator.name) {
        Some(title) => {
            assert(resolved_date(credits[kept].work.start_date) is Err);
            lemma_one_failing_credit_fails_all(title, credits, kept);
        },
        None => {},
    }
}

/// The creator's own details are mandatory. A creator without a name to
/// show, without a link, or without an image fails the whole feed,
/// whatever their works hold.
pub proof fn lemma_incomplete_creator_fails_the_feed(collected: CollectedView)
    requires
        display_name(collected.creator.name) is None || collected.creator.site_url is None
            || collected.creator.image is None,
    ensures
        planned(collected) is Err,
{
}

/// Synthesizes an entry from each credit, in order, and fails with the
/// error of the first credit that does not resolve.
pub fn synthesize_all(creator: &str, credits: Vec<Credit>) -> (outcome: Result<
    Vec<FeedEntry>,
    ServiceError,
>)
    ensures
        match outcome {
            Ok(entries) => entries_of(creator@, credits.deep_view()) == Ok::<
                Seq<FeedEntryView>,
                ServiceErrorView,
            >(entries.deep_view()),
            Err(error) => entries_of(creator@, credits.deep_view()) == Err::<
                Seq<FeedEntryView>,
                ServiceErrorView,
            >(error@),
        },
{
    let ghost all = credits.deep_view();
    let mut entries: Vec<FeedEntry> = Vec::new();
    assert(all.take(0) =~= Seq::empty());
    assert(entries.deep_view() =~= Seq::empty());
    for credit in it: credits.into_iter()
        invariant
            it.seq() == credits@,
            all == credits.deep_view(),
            entries_of(creator@, all.take(it.index() as int)) == Ok::<
                Seq<FeedEntryView>,
                ServiceErrorView,
            >(entries.deep_view()),
    {
        let ghost index = it.index() as int;
        let ghost before = entries.deep_view();
        proof {
            assert(all.take(index + 1).drop_last() =~= all.take(index));
            assert(all.take(index + 1).last() == credit@);
        }
        match synthesize(creator, credit) {
            Ok(entry) => {
                entries.push(entry);
                assert(entries.deep_view() =~= before.push(entry@));
            },
            Err(error) => {
                proof {
                    lemma_failure_is_final(creator@, all, index + 1);
                }
                return Err(error);
            },
        }
    }
    assert(all.take(credits@.len() as int) =~= all);
    Ok(entries)
}

/// Once a prefix of the credits has failed, the whole fails alike.
proof fn lemma_failure_is_final(creator: Seq<char>, credits: Seq<CreditView>, upto: int)
    requires
        0 <= upto <= credits.len(),
        entries_of(creator, credits.take(upto)) is Err,
    ensures
        entries_of(creator, credits) == entries_of(creator, credits.take(upto)),
    decreases credits.len() - upto,
{
    if upto == credits.len() {
        assert(credits.take(upto) =~= credits);
    } else {
        assert(credits.take(upto + 1).drop_last() =~= credits.take(upto));
        lemma_failure_is_final(creator, credits, upto + 1);
    }
}

/// Builds the feed of what the pagination collected.
pub fn build_feed(collected: Collected) -> (outcome: Result<FeedResult, ServiceError>)
    ensures
        match outcome {
            Ok(feed) => is_feed_of(collected@, feed@),
            Err(error) => planned(collected@) == Err::<FeedResultView, ServiceErrorView>(error@),
        },
{
    let Collected { creator, roles, works } = collected;
    let title = match show_name(creator.name) {
        Some(title) => title,
        None => { return Err(anilist_data_format(NAME_NONE)); },
    };
    let credits = match merge(roles, works) {
        Ok(credits) => credits,
        Err(error) => { return Err(error); },
    };
    let entries = match synthesize_all(title.as_str(), credits) {
        Ok(entries) => entries,
        Err(error) => { return Err(error); },
    };
    let link = match creator.site_url {
        Some(link) => link,
        None => { return Err(anilist_data_format(SITE_URL_NONE)); },
    };
    let image = match creator.image {
        Some(image) => image,
        None => { return Err(anilist_data_format(IMAGE_NONE)); },
    };
    let description = match creator.description {
        Some(description) => description,
        None => String::from_str(NO_STAFF_DESCRIPTION),
    };
    let entries = sort_entries(entries);
    Ok(FeedResult { title, link, description, image, entries })
}

} // verus!
