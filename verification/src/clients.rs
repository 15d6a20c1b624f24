//! The two upstream operations, as plain request values, and the reading
//! of the upstream's response envelope.

use crate::errors::{
    anilist_data_format, outcome_view, AnilistServerError, ServiceError, ServiceErrorView,
};
use vstd::prelude::*;

verus! {

/// Diagnostic for an error list that is present but holds no error.
pub const ERRORS_EMPTY: &'static str = "response_body.errors exists but is empty";

/// Diagnostic for a response that carries neither errors nor data.
pub const DATA_NONE: &'static str = "Data is None";

/// The number of works asked for per page of a creator's credits.
pub const STAFF_MEDIA_BATCH_SIZE: i64 = 25;

/// The highest page of a creator's credits that is ever asked for.
pub const STAFF_MEDIA_PAGE_LIMIT: i64 = 400;

/// The number of creators asked for per search.
pub const MAX_ANILIST_STAFF_SEARCH_RESULTS: i64 = 50;

/// The status reported for a fetch that failed before the upstream
/// answered with a status of its own.
pub const BAD_GATEWAY: u16 = 502;

/// Request for one page of a creator's credits.
#[derive(Clone, Copy, Debug, PartialEq, Eq, Structural)]
pub struct StaffMediaQuery {
    pub id: i64,
    pub staff_media_per_page: i64,
    pub staff_media_page: i64,
}

/// Request for the creators matching a free-text query.
#[derive(Debug)]
pub struct SearchQuery {
    pub search: String,
    pub staff_per_page: i64,
}

impl SearchQuery {
    /// A search for `query` that asks for at most `staff_per_page` creators.
    pub fn new(query: &str, staff_per_page: i64) -> (request: SearchQuery)
        ensures
            request.search@ == query@,
            request.staff_per_page == staff_per_page,
    {
        SearchQuery { search: String::from_str(query), staff_per_page }
    }
}

/// The error for a fetch that failed in transit: the transport's message
/// under the status the upstream answered with, if it answered at all.
pub fn transport_error(message: String, status_code: Option<u16>) -> (error: ServiceError)
    ensures
        error@ == (ServiceErrorView::Upstream {
            message: message@,
            status_code: match status_code {
                Some(code) => code as int,
                None => BAD_GATEWAY as int,
            },
        }),
{
    let status_code = match status_code {
        Some(code) => code,
        None => BAD_GATEWAY,
    };
    ServiceError::from(AnilistServerError { message, status_code })
}

/// What a response envelope amounts to: the first reported error under the
/// status it arrived with, else the payload, else a data-format error.
pub open spec fn response_outcome<T>(
    status_code: int,
    errors: Option<Seq<Seq<char>>>,
    data: Option<T>,
) -> Result<T, ServiceErrorView> {
    match errors {
        Some(reported) => if reported.len() > 0 {
            Err(ServiceErrorView::Upstream { message: reported[0], status_code })
        } else {
            Err(ServiceErrorView::DataFormat(ERRORS_EMPTY@))
        },
        None => match data {
            Some(payload) => Ok(payload),
            None => Err(ServiceErrorView::DataFormat(DATA_NONE@)),
        },
    }
}

/// Translates a response envelope into the payload or the error it stands
/// for. `errors` holds the messages of the errors the upstream reported.
pub fn read_response<T>(status_code: u16, errors: Option<Vec<String>>, data: Option<T>) -> (outcome:
    Result<T, ServiceError>)
    ensures
        outcome_view(outcome) == response_outcome(status_code as int, errors.deep_view(), data),
{
    match errors {
        Some(mut reported) => {
            if reported.len() > 0 {
                let message = reported.swap_remove(0);
                Err(ServiceError::from(AnilistServerError { message, status_code }))
            } else {
                Err(anilist_data_format(ERRORS_EMPTY))
            }
        },
        None => match data {
            Some(payload) => Ok(payload),
            None => Err(anilist_data_format(DATA_NONE)),
        },
    }
}

} // verus!
