use creator_feed::clients::{read_response, SearchQuery, DATA_NONE, ERRORS_EMPTY};
use creator_feed::errors::{
    anilist_data_format, internal_logic_error, AnilistServerError, ServiceError,
};

#[test]
fn data_format_error_carries_its_message() {
    match anilist_data_format("Staff is None") {
        ServiceError::AnilistDataFormat(wrapper) => assert_eq!(wrapper.message, "Staff is None"),
        _ => panic!("expected a data-format error"),
    }
}

#[test]
fn logic_error_carries_its_message() {
    match internal_logic_error("cannot happen") {
        ServiceError::InternalLogicError(wrapper) => assert_eq!(wrapper.message, "cannot happen"),
        _ => panic!("expected a logic error"),
    }
}

#[test]
fn upstream_error_converts_into_service_error() {
    let upstream = AnilistServerError { message: "Not Found.".to_string(), status_code: 404 };
    match ServiceError::from(upstream) {
        ServiceError::AnilistError(e) => {
            assert_eq!(e.message, "Not Found.");
            assert_eq!(e.status_code, 404);
        },
        _ => panic!("expected an upstream error"),
    }
}

#[test]
fn status_is_passed_through_for_upstream_errors_only() {
    let upstream = AnilistServerError { message: "Too Many Requests.".to_string(), status_code: 429 };
    assert_eq!(ServiceError::AnilistError(upstream).status_code(), 429);
    assert_eq!(ServiceError::InternalError.status_code(), 500);
    assert_eq!(anilist_data_format("x").status_code(), 500);
    assert_eq!(internal_logic_error("x").status_code(), 500);
    assert_eq!(ServiceError::PageLimitExceeded.status_code(), 500);
}

#[test]
fn a_status_that_http_does_not_know_becomes_a_server_error() {
    let status = |status_code| {
        ServiceError::AnilistError(AnilistServerError { message: String::new(), status_code })
            .status_code()
    };
    assert_eq!(status(99), 500);
    assert_eq!(status(100), 100);
    assert_eq!(status(999), 999);
    assert_eq!(status(1000), 500);
    assert_eq!(status(0), 500);
    assert_eq!(status(u16::MAX), 500);
}

#[test]
fn errors_describe_themselves() {
    assert_eq!(
        ServiceError::InternalError.to_text(),
        "An internal error occurred. Please try again later"
    );
    assert_eq!(
        anilist_data_format("Data is None").to_text(),
        "Unexpected Anilist data format: Data is None"
    );
    assert_eq!(
        internal_logic_error("name cannot be None").to_text(),
        "An internal error occurred: name cannot be None"
    );
    let upstream = AnilistServerError { message: "Not Found.".to_string(), status_code: 404 };
    assert_eq!(
        ServiceError::AnilistError(upstream).to_text(),
        "An error occurred in Anilist: Not Found."
    );
    assert_eq!(
        ServiceError::PageLimitExceeded.to_text(),
        "Anilist returned more pages than the page limit allows"
    );
}

#[test]
fn response_with_data_and_no_errors_yields_the_data() {
    assert!(matches!(read_response(200, None, Some(41)), Ok(41)));
}

#[test]
fn response_with_errors_yields_the_first_under_its_status() {
    let errors = vec!["Not Found.".to_string(), "second".to_string(), "third".to_string()];
    match read_response(404, Some(errors), Some(41)) {
        Err(ServiceError::AnilistError(e)) => {
            assert_eq!(e.message, "Not Found.");
            assert_eq!(e.status_code, 404);
        },
        _ => panic!("expected an upstream error"),
    }
}

#[test]
fn response_with_an_empty_error_list_is_a_data_format_error() {
    match read_response(200, Some(vec![]), Some(41)) {
        Err(ServiceError::AnilistDataFormat(wrapper)) => {
            assert_eq!(wrapper.message, ERRORS_EMPTY);
            assert_eq!(wrapper.message, "response_body.errors exists but is empty");
        },
        _ => panic!("expected a data-format error"),
    }
}

#[test]
fn response_without_data_is_a_data_format_error() {
    match read_response::<i32>(200, None, None) {
        Err(ServiceError::AnilistDataFormat(wrapper)) => {
            assert_eq!(wrapper.message, DATA_NONE);
            assert_eq!(wrapper.message, "Data is None");
        },
        _ => panic!("expected a data-format error"),
    }
}

#[test]
fn search_query_keeps_the_text_even_when_empty() {
    let query = SearchQuery::new("miyazaki", 50);
    assert_eq!(query.search, "miyazaki");
    assert_eq!(query.staff_per_page, 50);
    assert_eq!(SearchQuery::new("", 50).search, "");
}
