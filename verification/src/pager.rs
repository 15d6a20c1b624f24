//! The pagination driver: a state machine that asks for page after page
//! until a short page signals that the upstream has nothing more.
//!
//! The driver performs no fetch itself. Its owner performs the request the
//! driver names, hands back what came of it, and repeats until the driver
//! names no further request.

use crate::clients::StaffMediaQuery;
use crate::errors::{
    anilist_data_format, internal_logic_error, ServiceError, ServiceErrorView,
};
use crate::merge::LENGTH_MISMATCH;
use crate::records::{
    Creator, CreatorView, Role, RoleView, StaffPage, StaffPageView, Work, WorkView,
};
use vstd::prelude::*;

verus! {

/// Diagnostic for a page without a creator.
pub const STAFF_NONE: &'static str = "Staff is None";

/// Diagnostic for a creator without a page of credits.
pub const STAFF_MEDIA_NONE: &'static str = "Staff.staffMedia is None";

/// Diagnostic for a page of credits without its roles.
pub const EDGES_NONE: &'static str = "Staff.staffMedia.edges is None";

/// Diagnostic for a page of credits without its works.
pub const NODES_NONE: &'static str = "Staff.staffMedia.nodes is None";

/// Diagnostic for a pagination that was ended while a page was outstanding.
pub const NOT_FINISHED: &'static str = "pagination has not reached its last page";

/// Everything the pages of one creator held, in page order.
#[derive(Debug)]
pub struct Collected {
    pub creator: Creator,
    pub roles: Vec<Option<Role>>,
    pub works: Vec<Option<Work>>,
}

/// Mathematical model of a [`Collected`].
pub struct CollectedView {
    pub creator: CreatorView,
    pub roles: Seq<Option<RoleView>>,
    pub works: Seq<Option<WorkView>>,
}

impl View for Collected {
    type V = CollectedView;

    open spec fn view(&self) -> CollectedView {
        CollectedView {
            creator: self.creator@,
            roles: self.roles.deep_view(),
            works: self.works.deep_view(),
        }
    }
}

/// The driver while pages are still outstanding.
#[derive(Debug)]
pub struct Progress {
    pub id: i64,
    pub page_size: i64,
    pub page_limit: i64,
    /// The number of the page to request next, counted from 1.
    pub next_page: i64,
    /// The creator as the first page described them; `None` until then.
    pub creator: Option<Creator>,
    pub roles: Vec<Option<Role>>,
    pub works: Vec<Option<Work>>,
}

/// Mathematical model of a [`Progress`].
pub struct ProgressView {
    pub id: int,
    pub page_size: int,
    pub page_limit: int,
    pub next_page: int,
    pub creator: Option<CreatorView>,
    pub roles: Seq<Option<RoleView>>,
    pub works: Seq<Option<WorkView>>,
}

impl View for Progress {
    type V = ProgressView;

    open spec fn view(&self) -> ProgressView {
        ProgressView {
            id: self.id as int,
            page_size: self.page_size as int,
            page_limit: self.page_limit as int,
            next_page: self.next_page as int,
            creator: self.creator.deep_view(),
            roles: self.roles.deep_view(),
            works: self.works.deep_view(),
        }
    }
}

/// The pagination driver.
#[derive(Debug)]
pub enum Pager {
    /// A page is outstanding.
    Fetching(Progress),
    /// A short page arrived; everything is collected.
    Done(Collected),
    /// A fetch failed, a page was malformed, or the page limit was hit.
    /// Nothing collected so far is kept.
    Failed(ServiceError),
}

/// Mathematical model of a [`Pager`].
pub enum PagerView {
    Fetching(ProgressView),
    Done(CollectedView),
    Failed(ServiceErrorView),
}

impl View for Pager {
    type V = PagerView;

    open spec fn view(&self) -> PagerView {
        match self {
            Pager::Fetching(progress) => PagerView::Fetching(progress@),
            Pager::Done(collected) => PagerView::Done(collected@),
            Pager::Failed(error) => PagerView::Failed(error@),
        }
    }
}

/// What came of one fetch, as the driver sees it.
pub type PageEvent = Result<StaffPageView, ServiceErrorView>;

/// The model of what came of one fetch.
pub open spec fn event_view(event: Result<StaffPage, ServiceError>) -> PageEvent {
    match event {
        Ok(page) => Ok(page@),
        Err(error) => Err(error@),
    }
}

/// The creator, roles and works of a page, or the data-format error for
/// the first of them that is missing, or for roles and works that differ
/// in number.
pub open spec fn page_parts(page: StaffPageView) -> Result<CollectedView, ServiceErrorView> {
    match page.staff {
        None => Err(ServiceErrorView::DataFormat(STAFF_NONE@)),
        Some(staff) => match staff.media {
            None => Err(ServiceErrorView::DataFormat(STAFF_MEDIA_NONE@)),
            Some(media) => match media.roles {
                None => Err(ServiceErrorView::DataFormat(EDGES_NONE@)),
                Some(roles) => match media.works {
                    None => Err(ServiceErrorView::DataFormat(NODES_NONE@)),
                    Some(works) => if roles.len() != works.len() {
                        Err(ServiceErrorView::DataFormat(LENGTH_MISMATCH@))
                    } else {
                        Ok(CollectedView { creator: staff.creator, roles, works })
                    },
                },
            },
        },
    }
}

/// The state the driver starts in: waiting for page 1, unless the limit
/// admits no page at all.
pub open spec fn initial(id: int, page_size: int, page_limit: int) -> PagerView {
    if page_limit < 1 {
        PagerView::Failed(ServiceErrorView::PageLimit)
    } else {
        PagerView::Fetching(
            ProgressView {
                id,
                page_size,
                page_limit,
                next_page: 1,
                creator: None,
                roles: Seq::empty(),
                works: Seq::empty(),
            },
        )
    }
}

/// The transition of the driver. A fetching driver that receives a
/// well-formed page appends its roles and works; it is done when the page
/// held a number of works other than the page size, and otherwise moves on
/// to the next page. Any error, a malformed page, or a full page at the
/// page limit makes it fail. A driver that is done or has failed ignores
/// further events.
pub open spec fn step(state: PagerView, event: PageEvent) -> PagerView {
    match state {
        PagerView::Fetching(progress) => match event {
            Err(error) => PagerView::Failed(error),
            Ok(page) => match page_parts(page) {
                Err(error) => PagerView::Failed(error),
                Ok(parts) => {
                    let creator = match progress.creator {
                        Some(first) => first,
                        None => parts.creator,
                    };
                    let roles = progress.roles + parts.roles;
                    let works = progress.works + parts.works;
                    if parts.works.len() != progress.page_size {
                        PagerView::Done(CollectedView { creator, roles, works })
                    } else if progress.next_page < progress.page_limit {
                        PagerView::Fetching(
                            ProgressView {
                                next_page: progress.next_page + 1,
                                creator: Some(creator),
                                roles,
                                works,
                                ..progress
                            },
                        )
                    } else {
                        PagerView::Failed(ServiceErrorView::PageLimit)
                    }
                },
            },
        },
        _ => state,
    }
}

/// The request a state asks its owner to perform, if any.
pub open spec fn request_of(state: PagerView) -> Option<StaffMediaQuery> {
    match state {
        PagerView::Fetching(progress) => Some(
            StaffMediaQuery {
                id: progress.id as i64,
                staff_media_per_page: progress.page_size as i64,
                staff_media_page: progress.next_page as i64,
            },
        ),
        _ => None,
    }
}

/// What a state yields when its owner stops driving it.
pub open spec fn result_of(state: PagerView) -> Result<CollectedView, ServiceErrorView> {
    match state {
        PagerView::Fetching(_) => Err(ServiceErrorView::Logic(NOT_FINISHED@)),
        PagerView::Done(collected) => Ok(collected),
        PagerView::Failed(error) => Err(error),
    }
}

/// The state a driver reaches from `state` when the events arrive in
/// order.
pub open spec fn run(state: PagerView, events: Seq<PageEvent>) -> PagerView
    decreases events.len(),
{
    if events.len() == 0 {
        state
    } else {
        step(run(state, events.drop_last()), events.last())
    }
}

/// The events of fetches that all succeeded with the given pages.
pub open spec fn delivered(pages: Seq<StaffPageView>) -> Seq<PageEvent> {
    Seq::new(pages.len(), |i: int| Ok(pages[i]))
}

/// A well-formed page that holds exactly `page_size` works.
pub open spec fn is_full_page(page: StaffPageView, page_size: int) -> bool {
    page_parts(page) matches Ok(parts) && parts.works.len() == page_size
}

/// A well-formed page that holds some other number of works.
pub open spec fn is_short_page(page: StaffPageView, page_size: int) -> bool {
    page_parts(page) matches Ok(parts) && parts.works.len() != page_size
}

/// The roles of well-formed pages, concatenated in page order.
pub open spec fn roles_of(pages: Seq<StaffPageView>) -> Seq<Option<RoleView>>
    decreases pages.len(),
{
    if pages.len() == 0 {
        Seq::empty()
    } else {
        roles_of(pages.drop_last()) + page_parts(pages.last())->Ok_0.roles
    }
}

/// The works of well-formed pages, concatenated in page order.
pub open spec fn works_of(pages: Seq<StaffPageView>) -> Seq<Option<WorkView>>
    decreases pages.len(),
{
    if pages.len() == 0 {
        Seq::empty()
    } else {
        works_of(pages.drop_last()) + page_parts(pages.last())->Ok_0.works
    }
}

/// The creator as the first of the pages describes them.
pub open spec fn first_creator(pages: Seq<StaffPageView>) -> Option<CreatorView> {
    if pages.len() == 0 {
        None
    } else {
        Some(page_parts(pages[0])->Ok_0.creator)
    }
}

/// As long as every page is full and the limit is not reached, the driver
/// keeps fetching: after `n` full pages it holds all their roles and works
/// in page order and asks for page `n + 1`.
pub proof fn lemma_full_pages_keep_fetching(
    id: i64,
    page_size: i64,
    page_limit: i64,
    pages: Seq<StaffPageView>,
)
    requires
        pages.len() < page_limit,
        forall|i: int| 0 <= i < pages.len() ==> is_full_page(#[trigger] pages[i], page_size as int),
    ensures
        run(initial(id as int, page_size as int, page_limit as int), delivered(pages))
            == PagerView::Fetching(
            ProgressView {
                id: id as int,
                page_size: page_size as int,
                page_limit: page_limit as int,
                next_page: pages.len() as int + 1,
                creator: first_creator(pages),
                roles: roles_of(pages),
                works: works_of(pages),
            },
        ),
        request_of(run(initial(id as int, page_size as int, page_limit as int), delivered(pages)))
            == Some(
            StaffMediaQuery {
                id,
                staff_media_per_page: page_size,
                staff_media_page: (pages.len() + 1) as i64,
            },
        ),
    decreases pages.len(),
{
    if pages.len() > 0 {
        let earlier = pages.drop_last();
        lemma_full_pages_keep_fetching(id, page_size, page_limit, earlier);
        assert(delivered(pages).drop_last() =~= delivered(earlier));
        assert(delivered(pages).last() == Ok::<StaffPageView, ServiceErrorView>(pages.last()));
        assert(is_full_page(pages.last(), page_size as int));
        if earlier.len() > 0 {
            assert(earlier[0] == pages[0]);
        }
    }
}

/// Pagination ends at the first short page. When every page but the last
/// is full and the last is short, the driver requests each of the pages
/// once, in order, and then holds the roles and works of all of them in
/// page order and requests nothing more.
pub proof fn lemma_short_page_ends_pagination(
    id: i64,
    page_size: i64,
    page_limit: i64,
    pages: Seq<StaffPageView>,
)
    requires
        0 < pages.len() <= page_limit,
        forall|i: int|
            0 <= i < pages.len() - 1 ==> is_full_page(#[trigger] pages[i], page_size as int),
        is_short_page(pages.last(), page_size as int),
    ensures
        forall|k: int|
            0 <= k < pages.len() ==> request_of(
                run(
                    initial(id as int, page_size as int, page_limit as int),
                    #[trigger] delivered(pages.take(k)),
                ),
            ) == Some(
                StaffMediaQuery {
                    id,
                    staff_media_per_page: page_size,
                    staff_media_page: (k + 1) as i64,
                },
            ),
        run(initial(id as int, page_size as int, page_limit as int), delivered(pages))
            == PagerView::Done(
            CollectedView {
                creator: page_parts(pages[0])->Ok_0.creator,
                roles: roles_of(pages),
                works: works_of(pages),
            },
        ),
        request_of(run(initial(id as int, page_size as int, page_limit as int), delivered(pages)))
            is None,
{
    let start = initial(id as int, page_size as int, page_limit as int);
    assert forall|k: int| 0 <= k < pages.len() implies request_of(
        run(start, #[trigger] delivered(pages.take(k))),
    ) == Some(
        StaffMediaQuery { id, staff_media_per_page: page_size, staff_media_page: (k + 1) as i64 },
    ) by {
        lemma_full_pages_keep_fetching(id, page_size, page_limit, pages.take(k));
    }
    let earlier = pages.drop_last();
    lemma_full_pages_keep_fetching(id, page_size, page_limit, earlier);
    assert(delivered(pages).drop_last() =~= delivered(earlier));
    assert(delivered(pages).last() == Ok::<StaffPageView, ServiceErrorView>(pages.last()));
    if earlier.len() > 0 {
        assert(earlier[0] == pages[0]);
    }
}

/// The driver never asks for a page beyond the limit, and after as many
/// events as the limit allows pages it asks for nothing at all.
pub proof fn lemma_page_limit_bounds_requests(
    id: i64,
    page_size: i64,
    page_limit: i64,
    events: Seq<PageEvent>,
)
    ensures
        request_of(run(initial(id as int, page_size as int, page_limit as int), events)) matches Some(
            request,
        ) ==> request.staff_media_page == events.len() + 1 && request.staff_media_page
            <= page_limit,
        events.len() >= page_limit ==> request_of(
            run(initial(id as int, page_size as int, page_limit as int), events),
        ) is None,
    decreases events.len(),
{
    let start = initial(id as int, page_size as int, page_limit as int);
    assert(run(start, events) matches PagerView::Fetching(progress) ==> progress.next_page
        == events.len() + 1 && progress.next_page <= page_limit && progress.id == id
        && progress.page_size == page_size && progress.page_limit == page_limit) by {
        lemma_fetching_counts_pages(id, page_size, page_limit, events);
    }
}

proof fn lemma_fetching_counts_pages(
    id: i64,
    page_size: i64,
    page_limit: i64,
    events: Seq<PageEvent>,
)
    ensures
        run(initial(id as int, page_size as int, page_limit as int), events) matches PagerView::Fetching(
            progress,
        ) ==> progress.next_page == events.len() + 1 && progress.next_page <= page_limit
            && progress.id == id && progress.page_size == page_size && progress.page_limit
            == page_limit,
    decreases events.len(),
{
    if events.len() > 0 {
        lemma_fetching_counts_pages(id, page_size, page_limit, events.drop_last());
    }
}

/// The roles and works a driver holds are index-aligned: whatever events
/// arrive, there are as many roles as works.
pub proof fn lemma_collected_is_aligned(
    id: i64,
    page_size: i64,
    page_limit: i64,
    events: Seq<PageEvent>,
)
    ensures
        match run(initial(id as int, page_size as int, page_limit as int), events) {
            PagerView::Fetching(progress) => progress.roles.len() == progress.works.len(),
            PagerView::Done(collected) => collected.roles.len() == collected.works.len(),
            PagerView::Failed(_) => true,
        },
    decreases events.len(),
{
    if events.len() > 0 {
        lemma_collected_is_aligned(id, page_size, page_limit, events.drop_last());
    }
}

/// An error aborts the pagination: whatever state the driver is in when a
/// fetch fails, it keeps nothing of what it collected and requests
/// nothing more.
pub proof fn lemma_error_aborts(state: PagerView, error: ServiceErrorView)
    ensures
        state is Fetching ==> step(state, Err(error)) == PagerView::Failed(error),
        !(step(state, Err(error)) is Fetching),
        !(state is Fetching) ==> step(state, Err(error)) == state,
{
}

proof fn lemma_deep_view_append<T: DeepView>(front: Vec<T>, back: Vec<T>, whole: Vec<T>)
    requires
        whole@ == front@ + back@,
    ensures
        whole.deep_view() == front.deep_view() + back.deep_view(),
{
    assert(whole.deep_view() =~= front.deep_view() + back.deep_view());
}

impl Pager {
    /// A driver for the credits of creator `id`, fetched `page_size` works
    /// at a time, that will request no page beyond number `page_limit`.
    pub fn start(id: i64, page_size: i64, page_limit: i64) -> (pager: Pager)
        ensures
            pager@ == initial(id as int, page_size as int, page_limit as int),
    {
        if page_limit < 1 {
            Pager::Failed(ServiceError::PageLimitExceeded)
        } else {
            let progress = Progress {
                id,
                page_size,
                page_limit,
                next_page: 1,
                creator: None,
                roles: Vec::new(),
                works: Vec::new(),
            };
            assert(progress.roles.deep_view() =~= Seq::empty());
            assert(progress.works.deep_view() =~= Seq::empty());
            Pager::Fetching(progress)
        }
    }

    /// The fetch to perform next; `None` once the driver is done or has
    /// failed.
    pub fn next_request(&self) -> (request: Option<StaffMediaQuery>)
        ensures
            request == request_of(self@),
    {
        match self {
            Pager::Fetching(progress) => Some(
                StaffMediaQuery {
                    id: progress.id,
                    staff_media_per_page: progress.page_size,
                    staff_media_page: progress.next_page,
                },
            ),
            _ => None,
        }
    }

    /// Takes in what came of the fetch last requested.
    pub fn step(self, event: Result<StaffPage, ServiceError>) -> (next: Pager)
        ensures
            next@ == step(self@, event_view(event)),
    {
        match self {
            Pager::Fetching(progress) => {
                let page = match event {
                    Ok(page) => page,
                    Err(error) => { return Pager::Failed(error); },
                };
                let staff = match page.staff {
                    Some(staff) => staff,
                    None => { return Pager::Failed(anilist_data_format(STAFF_NONE)); },
                };
                let media = match staff.media {
                    Some(media) => media,
                    None => { return Pager::Failed(anilist_data_format(STAFF_MEDIA_NONE)); },
                };
                let mut page_roles = match media.roles {
                    Some(roles) => roles,
                    None => { return Pager::Failed(anilist_data_format(EDGES_NONE)); },
                };
                let mut page_works = match media.works {
                    Some(works) => works,
                    None => { return Pager::Failed(anilist_data_format(NODES_NONE)); },
                };
                if page_roles.len() != page_works.len() {
                    return Pager::Failed(anilist_data_format(LENGTH_MISMATCH));
                }
                let Progress { id, page_size, page_limit, next_page, creator, roles, works } =
                    progress;
                let creator = match creator {
                    Some(first) => first,
                    None => staff.creator,
                };
                let full = page_size >= 0 && page_works.len() as u64 == page_size as u64;
                let ghost old_roles = roles;
                let ghost old_works = works;
                let ghost new_roles = page_roles;
                let ghost new_works = page_works;
                let mut roles = roles;
                let mut works = works;
                roles.append(&mut page_roles);
                works.append(&mut page_works);
                proof {
                    lemma_deep_view_append(old_roles, new_roles, roles);
                    lemma_deep_view_append(old_works, new_works, works);
                }
                if !full {
                    Pager::Done(Collected { creator, roles, works })
                } else if next_page < page_limit {
                    Pager::Fetching(
                        Progress {
                            id,
                            page_size,
                            page_limit,
                            next_page: next_page + 1,
                            creator: Some(creator),
                            roles,
                            works,
                        },
                    )
                } else {
                    Pager::Failed(ServiceError::PageLimitExceeded)
                }
            },
            other => other,
        }
    }

    /// Ends the pagination: everything collected if the driver is done, the
    /// error if it failed, and a logic error if a page is still
    /// outstanding.
    pub fn finish(self) -> (outcome: Result<Collected, ServiceError>)
        ensures
            match outcome {
                Ok(collected) => result_of(self@) == Ok::<CollectedView, ServiceErrorView>(
                    collected@,
                ),
                Err(error) => result_of(self@) == Err::<CollectedView, ServiceErrorView>(error@),
            },
    {
        match self {
            Pager::Fetching(_) => Err(internal_logic_error(NOT_FINISHED)),
            Pager::Done(collected) => Ok(collected),
            Pager::Failed(error) => Err(error),
        }
    }
}

} // verus!
