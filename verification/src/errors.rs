//! The error taxonomy shared by every stage of the pipeline.

use vstd::prelude::*;

verus! {

/// HTTP status reported for every failure that did not originate upstream.
pub const INTERNAL_SERVER_ERROR: u16 = 500;

/// The message of an unspecified internal failure.
pub const INTERNAL_TEXT: &'static str = "An internal error occurred. Please try again later";

/// What the message of a data-format error begins with.
pub const DATA_FORMAT_PREFIX: &'static str = "Unexpected Anilist data format: ";

/// What the message of a logic error begins with.
pub const LOGIC_PREFIX: &'static str = "An internal error occurred: ";

/// What the message of an upstream error begins with.
pub const UPSTREAM_PREFIX: &'static str = "An error occurred in Anilist: ";

/// The message of a pagination that hit its page limit.
pub const PAGE_LIMIT_TEXT: &'static str = "Anilist returned more pages than the page limit allows";

/// A fixed diagnostic text attached to a data-format or logic error.
#[derive(Debug)]
pub struct ErrorMessageWrapper {
    pub message: &'static str,
}

/// An error reported by the upstream API itself, with the HTTP status it
/// arrived under.
#[derive(Debug)]
pub struct AnilistServerError {
    pub message: String,
    pub status_code: u16,
}

/// Everything that can fail a request.
#[derive(Debug)]
pub enum ServiceError {
    /// An unspecified internal failure.
    InternalError,
    /// A field was absent from an otherwise successful upstream response.
    AnilistDataFormat(ErrorMessageWrapper),
    /// An invariant of the pipeline itself was violated.
    InternalLogicError(ErrorMessageWrapper),
    /// The upstream API reported an error of its own.
    AnilistError(AnilistServerError),
    /// The upstream kept returning full pages up to the page limit.
    PageLimitExceeded,
}

/// Mathematical model of a [`ServiceError`].
pub enum ServiceErrorView {
    Internal,
    DataFormat(Seq<char>),
    Logic(Seq<char>),
    Upstream { message: Seq<char>, status_code: int },
    PageLimit,
}

/// Whether the number is a status code of HTTP: three digits.
pub open spec fn is_http_status(code: int) -> bool {
    100 <= code <= 999
}

impl ServiceErrorView {
    /// The HTTP status the front door answers with: the upstream's own
    /// status for an error the upstream reported, as long as it is a
    /// status HTTP knows, and a server error for everything else.
    pub open spec fn status_code(self) -> int {
        match self {
            ServiceErrorView::Upstream { status_code, .. } => if is_http_status(status_code) {
                status_code
            } else {
                INTERNAL_SERVER_ERROR as int
            },
            _ => INTERNAL_SERVER_ERROR as int,
        }
    }

    /// The message of the error.
    pub open spec fn text(self) -> Seq<char> {
        match self {
            ServiceErrorView::Internal => INTERNAL_TEXT@,
            ServiceErrorView::DataFormat(message) => DATA_FORMAT_PREFIX@ + message,
            ServiceErrorView::Logic(message) => LOGIC_PREFIX@ + message,
            ServiceErrorView::Upstream { message, .. } => UPSTREAM_PREFIX@ + message,
            ServiceErrorView::PageLimit => PAGE_LIMIT_TEXT@,
        }
    }
}

impl View for ServiceError {
    type V = ServiceErrorView;

    open spec fn view(&self) -> ServiceErrorView {
        match self {
            ServiceError::InternalError => ServiceErrorView::Internal,
            ServiceError::AnilistDataFormat(w) => ServiceErrorView::DataFormat(w.message@),
            ServiceError::InternalLogicError(w) => ServiceErrorView::Logic(w.message@),
            ServiceError::AnilistError(e) => ServiceErrorView::Upstream {
                message: e.message@,
                status_code: e.status_code as int,
            },
            ServiceError::PageLimitExceeded => ServiceErrorView::PageLimit,
        }
    }
}

impl From<AnilistServerError> for ServiceError {
    fn from(e: AnilistServerError) -> (error: ServiceError) {
        ServiceError::AnilistError(e)
    }
}

impl vstd::std_specs::convert::FromSpecImpl<AnilistServerError> for ServiceError {
    open spec fn obeys_from_spec() -> bool {
        true
    }

    open spec fn from_spec(e: AnilistServerError) -> ServiceError {
        ServiceError::AnilistError(e)
    }
}

/// A data-format error with the given diagnostic.
pub fn anilist_data_format(message: &'static str) -> (e: ServiceError)
    ensures
        e@ == ServiceErrorView::DataFormat(message@),
{
    ServiceError::AnilistDataFormat(ErrorMessageWrapper { message })
}

/// A logic error with the given diagnostic.
pub fn internal_logic_error(message: &'static str) -> (e: ServiceError)
    ensures
        e@ == ServiceErrorView::Logic(message@),
{
    ServiceError::InternalLogicError(ErrorMessageWrapper { message })
}

impl ServiceError {
    /// The HTTP status to answer with.
    pub fn status_code(&self) -> (code: u16)
        ensures
            code as int == self@.status_code(),
            is_http_status(code as int),
    {
        match self {
            ServiceError::AnilistError(e) => if 100 <= e.status_code && e.status_code <= 999 {
                e.status_code
            } else {
                INTERNAL_SERVER_ERROR
            },
            _ => INTERNAL_SERVER_ERROR,
        }
    }

    /// The message of the error.
    pub fn to_text(&self) -> (text: String)
        ensures
            text@ == self@.text(),
    {
        match self {
            ServiceError::InternalError => String::from_str(INTERNAL_TEXT),
            ServiceError::AnilistDataFormat(wrapper) => String::from_str(DATA_FORMAT_PREFIX).concat(
                wrapper.message,
            ),
            ServiceError::InternalLogicError(wrapper) => String::from_str(LOGIC_PREFIX).concat(
                wrapper.message,
            ),
            ServiceError::AnilistError(e) => String::from_str(UPSTREAM_PREFIX).concat(
                e.message.as_str(),
            ),
            ServiceError::PageLimitExceeded => String::from_str(PAGE_LIMIT_TEXT),
        }
    }
}

/// The model of a result whose error is a [`ServiceError`].
pub open spec fn outcome_view<T>(outcome: Result<T, ServiceError>) -> Result<T, ServiceErrorView> {
    match outcome {
        Ok(value) => Ok(value),
        Err(error) => Err(error@),
    }
}

} // verus!
