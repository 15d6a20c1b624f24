use creator_feed::errors::ServiceError;
use creator_feed::records::PersonName;
use creator_feed::search::{
    list_occupations, make_hit, search_results, PageInfo, SearchListing, SearchPage, StaffSummary,
    PAGE_INFO_NONE, SEARCH_RESULTS_NONE, SEARCH_STAFF_NONE, TOTAL_NONE,
};

fn text(s: &str) -> Option<String> {
    Some(s.to_string())
}

fn summary(id: i64, name: &str) -> StaffSummary {
    StaffSummary {
        id: Some(id),
        name: Some(PersonName { full: text(name), native: None }),
        image: Some(format!("https://example.org/{id}.png")),
        primary_occupations: Some(vec![text(" Director "), None, text("Writer\n")]),
    }
}

fn page(results: Vec<Option<StaffSummary>>, total: i64) -> SearchPage {
    SearchPage {
        staff: Some(SearchListing {
            page_info: Some(PageInfo { total: Some(total) }),
            results: Some(results),
        }),
    }
}

fn data_format_message<T>(outcome: Result<T, ServiceError>) -> &'static str {
    match outcome {
        Err(ServiceError::AnilistDataFormat(wrapper)) => wrapper.message,
        _ => panic!("expected a data-format error"),
    }
}

#[test]
fn a_complete_summary_becomes_a_hit() {
    let hit = make_hit(Some(StaffSummary {
        id: Some(95061),
        name: Some(PersonName { full: text("Hayao Miyazaki"), native: text("宮崎駿") }),
        image: text("https://example.org/m.png"),
        primary_occupations: Some(vec![text("  Director"), None, text("Animator  ")]),
    }))
    .unwrap();
    assert_eq!(hit.show_name, "Hayao Miyazaki, 宮崎駿");
    assert_eq!(hit.image_link, "https://example.org/m.png");
    assert_eq!(hit.rss_link, "https://creatorfollower.com/rss/anilist/staff/95061");
    assert_eq!(hit.primary_occupations, vec!["Director".to_string(), "Animator".to_string()]);
}

#[test]
fn occupations_are_flattened_and_trimmed() {
    let listed = Some(vec![None, text(" Voice Actor "), None, text(""), text("\tMangaka")]);
    assert_eq!(
        list_occupations(listed),
        vec!["Voice Actor".to_string(), String::new(), "Mangaka".to_string()]
    );
    assert_eq!(list_occupations(Some(vec![])), Vec::<String>::new());
    assert_eq!(list_occupations(None), Vec::<String>::new());
}

#[test]
fn a_hit_missing_its_image_is_dropped_and_the_rest_is_kept() {
    let mut broken = summary(2, "No Image");
    broken.image = None;
    let outcome = search_results(page(
        vec![Some(summary(1, "First")), Some(broken), Some(summary(3, "Third"))],
        3,
    ));
    let results = outcome.ok().unwrap();
    let names: Vec<&str> = results.search_results.iter().map(|h| h.show_name.as_str()).collect();
    assert_eq!(names, vec!["First", "Third"]);
    assert_eq!(results.num_results_on_page, 2);
    assert_eq!(results.num_found_results, 3);
    assert_eq!(
        results.search_results[1].rss_link,
        "https://creatorfollower.com/rss/anilist/staff/3"
    );
}

#[test]
fn hits_missing_identifier_or_name_are_dropped() {
    let mut no_id = summary(1, "No Id");
    no_id.id = None;
    let mut no_name = summary(2, "x");
    no_name.name = None;
    let mut empty_name = summary(3, "x");
    empty_name.name = Some(PersonName { full: None, native: None });
    let mut no_occupations = summary(4, "Kept");
    no_occupations.primary_occupations = None;
    let results = search_results(page(
        vec![Some(no_id), None, Some(no_name), Some(empty_name), Some(no_occupations)],
        40,
    ))
    .ok()
    .unwrap();
    assert_eq!(results.search_results.len(), 1);
    assert_eq!(results.search_results[0].show_name, "Kept");
    assert_eq!(results.search_results[0].primary_occupations.len(), 0);
    assert_eq!(results.num_results_on_page, 1);
    assert_eq!(results.num_found_results, 40);
}

#[test]
fn an_empty_search_page_has_no_hits() {
    let results = search_results(page(vec![], 0)).ok().unwrap();
    assert_eq!(results.search_results.len(), 0);
    assert_eq!(results.num_results_on_page, 0);
    assert_eq!(results.num_found_results, 0);
}

#[test]
fn a_search_page_without_listing_is_a_data_format_error() {
    assert_eq!(data_format_message(search_results(SearchPage { staff: None })), SEARCH_STAFF_NONE);
    assert_eq!(SEARCH_STAFF_NONE, "SearchQueryStaff is None");
}

#[test]
fn a_search_page_without_results_is_a_data_format_error() {
    let listing = SearchListing { page_info: Some(PageInfo { total: Some(1) }), results: None };
    let outcome = search_results(SearchPage { staff: Some(listing) });
    assert_eq!(data_format_message(outcome), SEARCH_RESULTS_NONE);
}

#[test]
fn a_search_page_without_page_info_is_a_data_format_error() {
    let listing = SearchListing { page_info: None, results: Some(vec![Some(summary(1, "a"))]) };
    let outcome = search_results(SearchPage { staff: Some(listing) });
    assert_eq!(data_format_message(outcome), PAGE_INFO_NONE);
}

#[test]
fn a_search_page_without_total_is_a_data_format_error() {
    let listing = SearchListing {
        page_info: Some(PageInfo { total: None }),
        results: Some(vec![Some(summary(1, "a"))]),
    };
    let outcome = search_results(SearchPage { staff: Some(listing) });
    assert_eq!(data_format_message(outcome), TOTAL_NONE);
}
