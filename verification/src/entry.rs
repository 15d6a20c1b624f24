//! The title and date synthesizer: turns a credit that passed the coarse
//! filter into a finished feed entry, or fails.

use crate::date::{is_calendar_date, Date, DateView, MAX_YEAR, MIN_YEAR};
use crate::errors::{anilist_data_format, ServiceError, ServiceErrorView};
use crate::merge::{Credit, CreditView};
use crate::records::{PartialDate, PersonName, PersonNameView, WorkTitle, WorkTitleView};
use crate::text::{join_names, join_present, separator};
use vstd::prelude::*;

verus! {

/// The title of a work that has none.
pub const NO_TITLE: &'static str = "Anilist has no title";

/// Diagnostic for a credited work without a release date.
pub const START_DATE_NONE: &'static str = "Staff.staffMedia[].startDate is None";

/// Diagnostic for a release date without a year.
pub const YEAR_NONE: &'static str = "Staff.staffMedia[].startDate.year is None";

/// Diagnostic for a release date without a month.
pub const MONTH_NONE: &'static str = "Staff.staffMedia[].startDate.month is None";

/// Diagnostic for a release date without a day.
pub const DAY_NONE: &'static str = "Staff.staffMedia[].startDate.day is None";

/// Diagnostic for a release date that names no day of the calendar.
pub const NOT_A_DATE: &'static str = "Staff.staffMedia[].startDate is not a calendar date";

/// One finished, renderable item of a feed.
#[derive(Debug)]
pub struct FeedEntry {
    pub title: String,
    pub link: Option<String>,
    pub description: Option<String>,
    pub date: Date,
}

/// Mathematical model of a [`FeedEntry`].
pub struct FeedEntryView {
    pub title: Seq<char>,
    pub link: Option<Seq<char>>,
    pub description: Option<Seq<char>>,
    pub date: DateView,
}

impl View for FeedEntry {
    type V = FeedEntryView;

    open spec fn view(&self) -> FeedEntryView {
        FeedEntryView {
            title: self.title@,
            link: self.link.deep_view(),
            description: self.description.deep_view(),
            date: self.date@,
        }
    }
}

impl DeepView for FeedEntry {
    type V = FeedEntryView;

    open spec fn deep_view(&self) -> FeedEntryView {
        self@
    }
}

/// The name a person is shown under: the full and the native name, as far
/// as present, joined by `", "`; `None` when there is neither.
pub open spec fn display_name(name: Option<PersonNameView>) -> Option<Seq<char>> {
    match name {
        Some(name) => join_present(name.full, name.native),
        None => None,
    }
}

/// The title that fills the primary slot: the English one if present,
/// else the romaji one.
pub open spec fn primary_title(title: WorkTitleView) -> Option<Seq<char>> {
    if title.english is Some {
        title.english
    } else {
        title.romaji
    }
}

/// The title of the work itself: the primary and the native title, as far
/// as present, joined by `", "`; the placeholder when the work has no
/// title record or the record holds no title.
pub open spec fn work_title(title: Option<WorkTitleView>) -> Seq<char> {
    match title {
        Some(title) => match join_present(primary_title(title), title.native) {
            Some(text) => text,
            None => NO_TITLE@,
        },
        None => NO_TITLE@,
    }
}

/// The title of a feed entry: `<creator> as <role> on <work title>`.
pub open spec fn entry_title(
    creator: Seq<char>,
    role: Seq<char>,
    title: Option<WorkTitleView>,
) -> Seq<char> {
    creator + " as "@ + role + " on "@ + work_title(title)
}

/// The calendar date a partial date resolves to. All three components
/// must be present and name a day that exists; nothing is defaulted.
pub open spec fn resolved_date(date: Option<PartialDate>) -> Result<DateView, ServiceErrorView> {
    match date {
        None => Err(ServiceErrorView::DataFormat(START_DATE_NONE@)),
        Some(date) => match (date.year, date.month, date.day) {
            (None, _, _) => Err(ServiceErrorView::DataFormat(YEAR_NONE@)),
            (Some(_), None, _) => Err(ServiceErrorView::DataFormat(MONTH_NONE@)),
            (Some(_), Some(_), None) => Err(ServiceErrorView::DataFormat(DAY_NONE@)),
            (Some(year), Some(month), Some(day)) => if is_calendar_date(
                year as int,
                month as int,
                day as int,
            ) {
                Ok(DateView { year: year as int, month: month as int, day: day as int })
            } else {
                Err(ServiceErrorView::DataFormat(NOT_A_DATE@))
            },
        },
    }
}

/// The entry a credit becomes under the given creator name, or the error
/// its date resolves to.
pub open spec fn synthesized(creator: Seq<char>, credit: CreditView) -> Result<
    FeedEntryView,
    ServiceErrorView,
> {
    match resolved_date(credit.work.start_date) {
        Ok(date) => Ok(
            FeedEntryView {
                title: entry_title(creator, credit.role, credit.work.title),
                link: credit.work.site_url,
                description: credit.work.description,
                date,
            },
        ),
        Err(error) => Err(error),
    }
}

/// The title falls back in a fixed order: the English title fills the
/// primary slot whenever it is present, the romaji title only when the
/// English one is absent, and the placeholder stands in when neither the
/// primary slot nor the native title is filled, or the work has no title
/// record at all.
pub proof fn lemma_title_fallback_order(title: WorkTitleView)
    ensures
        title.english is Some ==> primary_title(title) == title.english,
        title.english is None ==> primary_title(title) == title.romaji,
        title.english matches Some(english) ==> work_title(Some(title)) == match title.native {
            Some(native) => english + separator() + native,
            None => english,
        },
        title.english is None ==> (title.romaji matches Some(romaji) ==> work_title(Some(title))
            == match title.native {
            Some(native) => romaji + separator() + native,
            None => romaji,
        }),
        title.english is None && title.romaji is None ==> work_title(Some(title))
            == match title.native {
            Some(native) => native,
            None => NO_TITLE@,
        },
        work_title(None) == NO_TITLE@,
{
}

/// A release date is all or nothing. A date with some but not all of its
/// components passes the coarse filter and then fails to resolve: a
/// missing component is never defaulted.
pub proof fn lemma_incomplete_date_never_resolves(date: PartialDate)
    requires
        date.has_any_component(),
        !date.is_complete(),
    ensures
        resolved_date(Some(date)) is Err,
        resolved_date(Some(date))->Err_0 is DataFormat,
{
}

/// The name a person is shown under, if they have one.
pub fn show_name(name: Option<PersonName>) -> (shown: Option<String>)
    ensures
        shown.deep_view() == display_name(name.deep_view()),
{
    match name {
        Some(name) => join_names(name.full, name.native),
        None => None,
    }
}

/// Builds the title of a feed entry.
pub fn make_title(creator: &str, role: &str, title: Option<WorkTitle>) -> (text: String)
    ensures
        text@ == entry_title(creator@, role@, title.deep_view()),
{
    let work = match title {
        Some(title) => {
            let primary = if title.english.is_some() {
                title.english
            } else {
                title.romaji
            };
            match join_names(primary, title.native) {
                Some(text) => text,
                None => String::from_str(NO_TITLE),
            }
        },
        None => String::from_str(NO_TITLE),
    };
    let mut text = String::from_str(creator);
    text.append(" as ");
    text.append(role);
    text.append(" on ");
    text.append(work.as_str());
    text
}

/// Resolves a partial date to a calendar date.
pub fn resolve_date(date: Option<PartialDate>) -> (outcome: Result<Date, ServiceError>)
    ensures
        match outcome {
            Ok(resolved) => resolved_date(date) == Ok::<DateView, ServiceErrorView>(resolved@),
            Err(error) => resolved_date(date) == Err::<DateView, ServiceErrorView>(error@),
        },
{
    let date = match date {
        Some(date) => date,
        None => { return Err(anilist_data_format(START_DATE_NONE)); },
    };
    let year = match date.year {
        Some(year) => year,
        None => { return Err(anilist_data_format(YEAR_NONE)); },
    };
    let month = match date.month {
        Some(month) => month,
        None => { return Err(anilist_data_format(MONTH_NONE)); },
    };
    let day = match date.day {
        Some(day) => day,
        None => { return Err(anilist_data_format(DAY_NONE)); },
    };
    if year < MIN_YEAR as i64 || year > MAX_YEAR as i64 || month < 1 || month > 12 || day < 1
        || day > 31 {
        return Err(anilist_data_format(NOT_A_DATE));
    }
    match Date::from_ymd(year as i32, month as u32, day as u32) {
        Some(resolved) => Ok(resolved),
        None => Err(anilist_data_format(NOT_A_DATE)),
    }
}

/// Turns a credit into a feed entry under the given creator name.
pub fn synthesize(creator: &str, credit: Credit) -> (outcome: Result<FeedEntry, ServiceError>)
    ensures
        match outcome {
            Ok(entry) => synthesized(creator@, credit@) == Ok::<FeedEntryView, ServiceErrorView>(
                entry@,
            ),
            Err(error) => synthesized(creator@, credit@) == Err::<
                FeedEntryView,
                ServiceErrorView,
            >(error@),
        },
{
    let Credit { role, work } = credit;
    let date = match resolve_date(work.start_date) {
        Ok(date) => date,
        Err(error) => { return Err(error); },
    };
    let title = make_title(creator, role.as_str(), work.title);
    Ok(FeedEntry { title, link: work.site_url, description: work.description, date })
}

} // verus!
