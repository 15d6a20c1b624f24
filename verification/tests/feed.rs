use creator_feed::date::Date;
use creator_feed::entry::{
    make_title, resolve_date, show_name, synthesize, FeedEntry, DAY_NONE, MONTH_NONE, NOT_A_DATE,
    NO_TITLE, START_DATE_NONE, YEAR_NONE,
};
use creator_feed::errors::ServiceError;
use creator_feed::feed::{
    build_feed, synthesize_all, IMAGE_NONE, NAME_NONE, NO_STAFF_DESCRIPTION, SITE_URL_NONE,
};
use creator_feed::merge::{merge, pair, Credit, LENGTH_MISMATCH};
use creator_feed::order::sort_entries;
use creator_feed::pager::{Collected, Pager};
use creator_feed::records::{
    Creator, PartialDate, PersonName, Role, Staff, StaffMedia, StaffPage, Work, WorkTitle,
};

fn text(s: &str) -> Option<String> {
    Some(s.to_string())
}

fn ymd(year: i64, month: i64, day: i64) -> Option<PartialDate> {
    Some(PartialDate { year: Some(year), month: Some(month), day: Some(day) })
}

fn role(label: &str) -> Option<Role> {
    Some(Role { label: text(label) })
}

fn work(english: &str, date: Option<PartialDate>) -> Option<Work> {
    Some(Work {
        title: Some(WorkTitle { native: None, romaji: None, english: text(english) }),
        site_url: Some(format!("https://example.org/{english}")),
        description: Some(format!("about {english}")),
        start_date: date,
    })
}

fn creator() -> Creator {
    Creator {
        name: Some(PersonName { full: text("Jane Roe"), native: text("ジェーン") }),
        site_url: text("https://example.org/staff/123"),
        image: text("https://example.org/staff/123.png"),
        description: text("An animator."),
    }
}

fn data_format_message<T>(outcome: Result<T, ServiceError>) -> &'static str {
    match outcome {
        Err(ServiceError::AnilistDataFormat(wrapper)) => wrapper.message,
        Err(other) => panic!("expected a data-format error, got: {}", other.to_text()),
        Ok(_) => panic!("expected a data-format error, got success"),
    }
}

fn entry(title: &str, (y, m, d): (i32, u32, u32)) -> FeedEntry {
    FeedEntry {
        title: title.to_string(),
        link: None,
        description: None,
        date: Date::from_ymd(y, m, d).unwrap(),
    }
}

fn titles(entries: &Vec<FeedEntry>) -> Vec<&str> {
    entries.iter().map(|e| e.title.as_str()).collect()
}

#[test]
fn roles_and_works_are_paired_by_absolute_position_across_pages() {
    let roles = vec![role("r0"), role("r1"), role("r2")];
    let works = vec![
        work("w0", ymd(2001, 1, 1)),
        work("w1", ymd(2002, 2, 2)),
        work("w2", ymd(2003, 3, 3)),
    ];
    let credits = merge(roles, works).ok().unwrap();
    let pairs: Vec<(String, Option<String>)> =
        credits.into_iter().map(|c| (c.role, c.work.title.unwrap().english)).collect();
    assert_eq!(
        pairs,
        vec![
            ("r0".to_string(), text("w0")),
            ("r1".to_string(), text("w1")),
            ("r2".to_string(), text("w2")),
        ]
    );
}

#[test]
fn pairs_collected_over_two_pages_keep_their_positions() {
    let page = |roles: Vec<Option<Role>>, works: Vec<Option<Work>>| StaffPage {
        staff: Some(Staff {
            creator: creator(),
            media: Some(StaffMedia { roles: Some(roles), works: Some(works) }),
        }),
    };
    let first = page(
        vec![role("r0"), role("r1")],
        vec![work("w0", ymd(2001, 1, 1)), work("w1", ymd(2002, 2, 2))],
    );
    let second = page(vec![role("r2")], vec![work("w2", ymd(2003, 3, 3))]);
    let pager = Pager::start(123, 2, 10).step(Ok(first)).step(Ok(second));
    let collected = pager.finish().ok().unwrap();
    let credits = merge(collected.roles, collected.works).ok().unwrap();
    let pairs: Vec<(String, Option<String>)> =
        credits.into_iter().map(|c| (c.role, c.work.title.unwrap().english)).collect();
    assert_eq!(
        pairs,
        vec![
            ("r0".to_string(), text("w0")),
            ("r1".to_string(), text("w1")),
            ("r2".to_string(), text("w2")),
        ]
    );
}

#[test]
fn a_dropped_pair_does_not_shift_the_pairs_after_it() {
    let roles = vec![role("r0"), None, role("r2"), role("r3"), role("r4"), role("")];
    let works = vec![
        work("w0", ymd(2001, 1, 1)),
        work("w1", ymd(2002, 2, 2)),
        None,
        work("w3", None),
        work("w4", Some(PartialDate { year: None, month: Some(4), day: None })),
        work("w5", ymd(2005, 5, 5)),
    ];
    let credits = merge(roles, works).ok().unwrap();
    let pairs: Vec<(String, Option<String>)> =
        credits.into_iter().map(|c| (c.role, c.work.title.unwrap().english)).collect();
    assert_eq!(
        pairs,
        vec![("r0".to_string(), text("w0")), ("r4".to_string(), text("w4"))]
    );
}

#[test]
fn the_coarse_filter_asks_for_a_label_and_one_date_component() {
    let empty_date = Some(PartialDate { year: None, month: None, day: None });
    let only_day = Some(PartialDate { year: None, month: None, day: Some(5) });
    assert!(pair(role("Director"), work("w", only_day)).is_some());
    assert!(pair(role("Director"), work("w", empty_date)).is_none());
    assert!(pair(role("Director"), work("w", None)).is_none());
    assert!(pair(Some(Role { label: None }), work("w", ymd(2001, 1, 1))).is_none());
    assert!(pair(role(""), work("w", ymd(2001, 1, 1))).is_none());
    assert!(pair(None, work("w", ymd(2001, 1, 1))).is_none());
    assert!(pair(role("Director"), None).is_none());
    assert!(pair(role(" "), work("w", ymd(2001, 1, 1))).is_some());
}

#[test]
fn roles_and_works_of_different_number_are_a_data_format_error() {
    let outcome = merge(vec![role("r0"), role("r1")], vec![work("w0", ymd(2001, 1, 1))]);
    assert_eq!(data_format_message(outcome), LENGTH_MISMATCH);
    let outcome = merge(vec![], vec![work("w0", ymd(2001, 1, 1))]);
    assert_eq!(data_format_message(outcome), LENGTH_MISMATCH);
}

#[test]
fn merging_nothing_gives_nothing() {
    assert_eq!(merge(vec![], vec![]).ok().unwrap().len(), 0);
}

#[test]
fn a_date_with_a_missing_month_passes_the_filter_and_fails_synthesis() {
    let partial = Some(PartialDate { year: Some(2020), month: None, day: Some(5) });
    let credit = pair(role("Director"), work("Show", partial)).unwrap();
    assert_eq!(data_format_message(synthesize("Jane Roe", credit)), MONTH_NONE);
}

#[test]
fn a_date_with_a_missing_month_fails_the_whole_feed() {
    let partial = Some(PartialDate { year: Some(2020), month: None, day: Some(5) });
    let collected = Collected {
        creator: creator(),
        roles: vec![role("Director"), role("Writer")],
        works: vec![work("Good", ymd(2019, 5, 1)), work("Partial", partial)],
    };
    assert_eq!(data_format_message(build_feed(collected)), MONTH_NONE);
}

#[test]
fn each_missing_date_component_has_its_own_error() {
    let date = |year, month, day| Some(PartialDate { year, month, day });
    assert_eq!(data_format_message(resolve_date(None)), START_DATE_NONE);
    assert_eq!(data_format_message(resolve_date(date(None, Some(1), Some(1)))), YEAR_NONE);
    assert_eq!(data_format_message(resolve_date(date(None, None, None))), YEAR_NONE);
    assert_eq!(data_format_message(resolve_date(date(Some(2020), None, Some(1)))), MONTH_NONE);
    assert_eq!(data_format_message(resolve_date(date(Some(2020), None, None))), MONTH_NONE);
    assert_eq!(data_format_message(resolve_date(date(Some(2020), Some(1), None))), DAY_NONE);
}

#[test]
fn a_complete_date_that_is_no_calendar_day_is_a_data_format_error() {
    for (y, m, d) in [(2019, 2, 29), (2020, 13, 1), (2020, 0, 1), (2020, 1, 0), (2020, 4, 31),
        (2020, -1, 1), (i64::MAX, 1, 1), (2020, 1, 1 << 32), (2020, (1 << 32) + 1, 1),
        (i64::MIN, 1, 1), (262143, 1, 1)] {
        assert_eq!(data_format_message(resolve_date(ymd(y, m, d))), NOT_A_DATE, "{y}-{m}-{d}");
    }
}

#[test]
fn a_complete_date_resolves_to_itself() {
    let date = resolve_date(ymd(2019, 5, 1)).ok().unwrap();
    assert_eq!((date.year(), date.month(), date.day()), (2019, 5, 1));
    assert_eq!(date.to_text(), "2019-05-01");
    let leap = resolve_date(ymd(2020, 2, 29)).ok().unwrap();
    assert_eq!(leap.to_text(), "2020-02-29");
}

#[test]
fn english_title_is_preferred() {
    let title = WorkTitle { native: None, romaji: text("Sen to Chihiro"), english: text("Spirited Away") };
    assert_eq!(make_title("Jane Roe", "Director", Some(title)), "Jane Roe as Director on Spirited Away");
}

#[test]
fn romaji_title_is_used_when_english_is_absent() {
    let title = WorkTitle { native: None, romaji: text("Sen to Chihiro"), english: None };
    assert_eq!(make_title("Jane Roe", "Director", Some(title)), "Jane Roe as Director on Sen to Chihiro");
}

#[test]
fn native_title_follows_the_primary_title() {
    let title = WorkTitle { native: text("千と千尋"), romaji: text("Sen to Chihiro"), english: text("Spirited Away") };
    assert_eq!(
        make_title("Jane Roe", "Director", Some(title)),
        "Jane Roe as Director on Spirited Away, 千と千尋"
    );
    let title = WorkTitle { native: text("千と千尋"), romaji: text("Sen to Chihiro"), english: None };
    assert_eq!(
        make_title("Jane Roe", "Director", Some(title)),
        "Jane Roe as Director on Sen to Chihiro, 千と千尋"
    );
    let title = WorkTitle { native: text("千と千尋"), romaji: None, english: None };
    assert_eq!(make_title("Jane Roe", "Director", Some(title)), "Jane Roe as Director on 千と千尋");
}

#[test]
fn placeholder_title_is_used_when_no_title_is_present() {
    assert_eq!(NO_TITLE, "Anilist has no title");
    assert_eq!(make_title("Jane Roe", "Director", None), "Jane Roe as Director on Anilist has no title");
    let title = WorkTitle { native: None, romaji: None, english: None };
    assert_eq!(
        make_title("Jane Roe", "Director", Some(title)),
        "Jane Roe as Director on Anilist has no title"
    );
}

#[test]
fn display_name_joins_full_and_native() {
    let name = |full: Option<String>, native: Option<String>| Some(PersonName { full, native });
    assert_eq!(show_name(name(text("Jane Roe"), text("ジェーン"))), text("Jane Roe, ジェーン"));
    assert_eq!(show_name(name(text("Jane Roe"), None)), text("Jane Roe"));
    assert_eq!(show_name(name(None, text("ジェーン"))), text("ジェーン"));
    assert_eq!(show_name(name(None, None)), None);
    assert_eq!(show_name(None), None);
}

#[test]
fn an_entry_takes_link_and_description_verbatim() {
    let credit = Credit {
        role: "Key Animation".to_string(),
        work: Work {
            title: Some(WorkTitle { native: None, romaji: None, english: text("Show A") }),
            site_url: text("https://example.org/a"),
            description: text(""),
            start_date: ymd(2019, 5, 1),
        },
    };
    let entry = synthesize("Jane Roe", credit).ok().unwrap();
    assert_eq!(entry.title, "Jane Roe as Key Animation on Show A");
    assert_eq!(entry.link, text("https://example.org/a"));
    assert_eq!(entry.description, text(""));
    assert_eq!(entry.date.to_text(), "2019-05-01");
    let bare = Credit {
        role: "Key Animation".to_string(),
        work: Work { title: None, site_url: None, description: None, start_date: ymd(2019, 5, 1) },
    };
    let entry = synthesize("Jane Roe", bare).ok().unwrap();
    assert_eq!(entry.link, None);
    assert_eq!(entry.description, None);
}

#[test]
fn synthesis_stops_at_the_first_credit_that_fails() {
    let credit = |label: &str, date| pair(role(label), work(label, date)).unwrap();
    let credits = vec![
        credit("a", ymd(2001, 1, 1)),
        credit("b", Some(PartialDate { year: Some(2002), month: Some(2), day: None })),
        credit("c", Some(PartialDate { year: None, month: Some(2), day: None })),
    ];
    assert_eq!(data_format_message(synthesize_all("Jane Roe", credits)), DAY_NONE);
    let credits = vec![credit("a", ymd(2001, 1, 1)), credit("b", ymd(2002, 2, 2))];
    let entries = synthesize_all("Jane Roe", credits).ok().unwrap();
    assert_eq!(titles(&entries), vec!["Jane Roe as a on a", "Jane Roe as b on b"]);
}

#[test]
fn entries_are_sorted_newest_first() {
    let sorted = sort_entries(vec![
        entry("b", (2019, 5, 1)),
        entry("d", (2001, 12, 31)),
        entry("a", (2020, 1, 1)),
        entry("c", (2019, 4, 30)),
        entry("e", (-5, 1, 1)),
    ]);
    assert_eq!(titles(&sorted), vec!["a", "b", "c", "d", "e"]);
}

#[test]
fn entries_of_the_same_date_keep_their_input_order() {
    let sorted = sort_entries(vec![
        entry("first", (2019, 5, 1)),
        entry("older", (2018, 5, 1)),
        entry("second", (2019, 5, 1)),
        entry("newer", (2020, 5, 1)),
        entry("third", (2019, 5, 1)),
    ]);
    assert_eq!(titles(&sorted), vec!["newer", "first", "second", "third", "older"]);
    let same = sort_entries(vec![
        entry("1", (2000, 1, 1)),
        entry("2", (2000, 1, 1)),
        entry("3", (2000, 1, 1)),
        entry("4", (2000, 1, 1)),
    ]);
    assert_eq!(titles(&same), vec!["1", "2", "3", "4"]);
}

#[test]
fn sorting_orders_by_the_calendar_and_not_by_the_text_of_the_date() {
    let sorted = sort_entries(vec![
        entry("year 9999", (9999, 1, 1)),
        entry("year -1", (-1, 1, 1)),
        entry("year 10000", (10000, 1, 1)),
    ]);
    assert_eq!(titles(&sorted), vec!["year 10000", "year 9999", "year -1"]);
}

#[test]
fn sorting_nothing_or_one_entry_changes_nothing() {
    assert_eq!(sort_entries(vec![]).len(), 0);
    assert_eq!(titles(&sort_entries(vec![entry("only", (2000, 1, 1))])), vec!["only"]);
}

#[test]
fn sorting_agrees_with_a_stable_sort_of_the_standard_library() {
    let mut state: u64 = 7;
    let mut input = Vec::new();
    for i in 0..200 {
        state = state.wrapping_mul(6364136223846793005).wrapping_add(1442695040888963407);
        let year = 2000 + ((state >> 33) % 3) as i32;
        let month = 1 + ((state >> 40) % 2) as u32;
        let day = 1 + ((state >> 45) % 2) as u32;
        input.push((format!("{i}"), (year, month, day)));
    }
    let mut expected = input.clone();
    expected.sort_by(|a, b| b.1.cmp(&a.1));
    let sorted = sort_entries(input.iter().map(|(t, d)| entry(t, *d)).collect());
    let got: Vec<(String, (i32, u32, u32))> = sorted
        .iter()
        .map(|e| (e.title.clone(), (e.date.year(), e.date.month(), e.date.day())))
        .collect();
    assert_eq!(got, expected);
}

#[test]
fn a_feed_carries_the_creator_and_the_entries_newest_first() {
    let collected = Collected {
        creator: creator(),
        roles: vec![role("Director"), role("Writer"), role("Producer")],
        works: vec![
            work("Old", ymd(2001, 1, 1)),
            work("New", ymd(2021, 1, 1)),
            work("Undated", None),
        ],
    };
    let feed = build_feed(collected).ok().unwrap();
    assert_eq!(feed.title(), "Jane Roe, ジェーン");
    assert_eq!(feed.link(), "https://example.org/staff/123");
    assert_eq!(feed.image(), "https://example.org/staff/123.png");
    assert_eq!(feed.description(), "An animator.");
    assert_eq!(
        titles(feed.entries()),
        vec!["Jane Roe, ジェーン as Writer on New", "Jane Roe, ジェーン as Director on Old"]
    );
    assert_eq!(feed.entries()[0].link, text("https://example.org/New"));
    assert_eq!(feed.entries()[0].description, text("about New"));
    assert_eq!(feed.entries()[0].date.to_text(), "2021-01-01");
}

#[test]
fn a_creator_without_description_gets_the_fallback() {
    let mut who = creator();
    who.description = None;
    let feed = build_feed(Collected { creator: who, roles: vec![], works: vec![] }).ok().unwrap();
    assert_eq!(feed.description(), NO_STAFF_DESCRIPTION);
    assert_eq!(feed.description(), "No description provided by Anilist for this staff.");
    assert_eq!(feed.entries().len(), 0);
}

#[test]
fn a_creator_without_a_name_fails_the_feed() {
    let mut who = creator();
    who.name = None;
    let outcome = build_feed(Collected { creator: who, roles: vec![], works: vec![] });
    assert_eq!(data_format_message(outcome), NAME_NONE);
    let mut who = creator();
    who.name = Some(PersonName { full: None, native: None });
    let outcome = build_feed(Collected { creator: who, roles: vec![], works: vec![] });
    assert_eq!(data_format_message(outcome), NAME_NONE);
}

#[test]
fn a_creator_without_a_link_fails_the_feed() {
    let mut who = creator();
    who.site_url = None;
    let outcome = build_feed(Collected { creator: who, roles: vec![], works: vec![] });
    assert_eq!(data_format_message(outcome), SITE_URL_NONE);
}

#[test]
fn a_creator_without_an_image_fails_the_feed() {
    let mut who = creator();
    who.image = None;
    let outcome = build_feed(Collected { creator: who, roles: vec![], works: vec![] });
    assert_eq!(data_format_message(outcome), IMAGE_NONE);
}

#[test]
fn a_feed_with_mismatched_roles_and_works_fails() {
    let collected = Collected {
        creator: creator(),
        roles: vec![role("Director")],
        works: vec![work("a", ymd(2001, 1, 1)), work("b", ymd(2001, 1, 1))],
    };
    assert_eq!(data_format_message(build_feed(collected)), LENGTH_MISMATCH);
}

fn one_page(second_date: Option<PartialDate>) -> StaffPage {
    let who = Creator {
        name: Some(PersonName { full: text("Creator"), native: None }),
        site_url: text("https://example.org/staff/123"),
        image: text("https://example.org/staff/123.png"),
        description: None,
    };
    let first = Work {
        title: Some(WorkTitle { native: None, romaji: None, english: text("Show A") }),
        site_url: text("https://example.org/a"),
        description: text("The first show."),
        start_date: ymd(2019, 5, 1),
    };
    let second = Work {
        title: None,
        site_url: text("https://example.org/b"),
        description: None,
        start_date: second_date,
    };
    StaffPage {
        staff: Some(Staff {
            creator: who,
            media: Some(StaffMedia {
                roles: Some(vec![role("Role"), role("Role")]),
                works: Some(vec![Some(first), Some(second)]),
            }),
        }),
    }
}

#[test]
fn end_to_end_a_work_without_any_date_component_is_dropped() {
    let pager = Pager::start(123, 25, 100);
    assert_eq!(pager.next_request().unwrap().id, 123);
    let empty = Some(PartialDate { year: None, month: None, day: None });
    let pager = pager.step(Ok(one_page(empty)));
    assert!(pager.next_request().is_none());
    let feed = build_feed(pager.finish().ok().unwrap()).ok().unwrap();
    assert_eq!(feed.entries().len(), 1);
    assert_eq!(feed.entries()[0].title, "Creator as Role on Show A");
    assert_eq!(feed.entries()[0].date.to_text(), "2019-05-01");
    assert_eq!(
        (feed.entries()[0].date.year(), feed.entries()[0].date.month(), feed.entries()[0].date.day()),
        (2019, 5, 1)
    );
}

#[test]
fn end_to_end_a_work_with_only_a_year_fails_the_request() {
    let only_year = Some(PartialDate { year: Some(2020), month: None, day: None });
    let pager = Pager::start(123, 25, 100).step(Ok(one_page(only_year)));
    assert!(pager.next_request().is_none());
    let outcome = build_feed(pager.finish().ok().unwrap());
    assert_eq!(data_format_message(outcome), MONTH_NONE);
}
