//! Pagination behaviour and endpoint request construction.

use helix_client::error::Error;
use helix_client::model::{Follow, Game, GameId, Stream, StreamId, User, UserId, VideoId};
use helix_client::model::exactly_one;
use helix_client::paginated::{
    decode_page, run_script, Cursor, FetchOutcome, Page, Pager,
};
use helix_client::text::u64_to_dec;
use helix_client::HELIX_BASE_URL;

fn page(items: &[&str], next: Option<&str>) -> Page {
    Page {
        items: items.iter().map(|s| s.to_string()).collect(),
        next: next.map(|s| s.to_string()),
    }
}

fn ok(items: &[&str], next: Option<&str>) -> FetchOutcome {
    FetchOutcome::Success { page: page(items, next) }
}

#[test]
fn three_pages_yield_three_items_in_order_then_stop() {
    let script = vec![
        ok(&["a", "b"], Some("C1")),
        ok(&["c"], Some("C2")),
        ok(&[], None),
    ];
    let r = run_script(&script);
    assert_eq!(r.items, vec!["a", "b", "c"]);
    assert!(r.error.is_none());
    assert_eq!(r.fetches, 3);
}

#[test]
fn empty_page_with_cursor_still_terminates() {
    let script = vec![
        ok(&["a"], Some("C1")),
        ok(&[], Some("C2")),
        ok(&["never"], Some("C3")),
    ];
    let r = run_script(&script);
    assert_eq!(r.items, vec!["a"]);
    assert!(r.error.is_none());
    assert_eq!(r.fetches, 2);
}

#[test]
fn missing_cursor_ends_after_the_page_items() {
    let script = vec![ok(&["a", "b"], None), ok(&["never"], Some("C"))];
    let r = run_script(&script);
    assert_eq!(r.items, vec!["a", "b"]);
    assert!(r.error.is_none());
    assert_eq!(r.fetches, 1);
}

#[test]
fn empty_cursor_counts_as_absent() {
    let script = vec![ok(&["a"], Some("")), ok(&["never"], Some("C"))];
    let r = run_script(&script);
    assert_eq!(r.items, vec!["a"]);
    assert_eq!(r.fetches, 1);
}

#[test]
fn rerun_reproduces_the_identical_item_order() {
    let build = || {
        vec![
            ok(&["x", "y"], Some("C1")),
            ok(&["z"], Some("C2")),
            ok(&[], None),
        ]
    };
    let first = run_script(&build());
    let second = run_script(&build());
    assert_eq!(first.items, second.items);
    assert_eq!(first.fetches, second.fetches);
}

#[test]
fn client_error_ends_the_stream_with_that_error() {
    let script = vec![
        ok(&["a"], Some("C1")),
        FetchOutcome::Failure {
            error: Error::ClientError { status: 404, body: String::from("missing") },
        },
        ok(&["never"], Some("C2")),
    ];
    let r = run_script(&script);
    assert_eq!(r.items, vec!["a"]);
    match r.error {
        Some(Error::ClientError { status, body }) => {
            assert_eq!(status, 404);
            assert_eq!(body, "missing");
        }
        _ => panic!("the stream must end with the page's error"),
    }
    assert_eq!(r.fetches, 2);
}

#[test]
fn pager_computes_queries_and_stops_after_halt() {
    let fixed = vec![(String::from("first"), String::from("25"))];
    let mut pager = Pager::new();
    let q = pager.next_request(&fixed).expect("the start must permit a fetch");
    assert_eq!(q, vec![(String::from("first"), String::from("25"))]);
    let yielded = pager.absorb(&page(&["i1"], Some("CUR")));
    assert_eq!(yielded, vec!["i1"]);
    let q = pager.next_request(&fixed).expect("a cursor must permit a fetch");
    assert_eq!(
        q,
        vec![
            (String::from("first"), String::from("25")),
            (String::from("after"), String::from("CUR")),
        ]
    );
    pager.halt();
    assert!(pager.next_request(&fixed).is_none());
}

#[test]
fn cursor_query_contributes_the_after_parameter() {
    assert_eq!(Cursor::Start.query(), Some(vec![]));
    assert_eq!(
        Cursor::At(String::from("abc")).query(),
        Some(vec![(String::from("after"), String::from("abc"))])
    );
    assert_eq!(Cursor::End.query(), None);
}

#[test]
fn cursor_decodes_from_the_pagination_object() {
    assert!(matches!(Cursor::from(None), Cursor::End));
    assert!(matches!(Cursor::from(Some(String::new())), Cursor::End));
    match Cursor::from(Some(String::from("tok"))) {
        Cursor::At(t) => assert_eq!(t, "tok"),
        _ => panic!("a non-empty token must continue the stream"),
    }
    assert!(matches!(Cursor::default(), Cursor::End));
}

#[test]
fn page_bodies_decode_items_and_cursor() {
    let body = String::from(
        "{\"data\":[{\"id\":\"1\"},{\"id\":\"2\"}],\"pagination\":{\"cursor\":\"NEXT\"}}",
    );
    match decode_page(body) {
        Ok(p) => {
            assert_eq!(p.items, vec!["{\"id\":\"1\"}", "{\"id\":\"2\"}"]);
            assert_eq!(p.next.as_deref(), Some("NEXT"));
        }
        Err(_) => panic!("a well-formed page body must decode"),
    }
    match decode_page(String::from("{\"data\":[]}")) {
        Ok(p) => {
            assert!(p.items.is_empty());
            assert!(p.next.is_none());
        }
        Err(_) => panic!("a page without pagination metadata must decode"),
    }
    match decode_page(String::from("{\"data\":\"not a list\"}")) {
        Err(Error::Decode { body }) => assert_eq!(body, "{\"data\":\"not a list\"}"),
        _ => panic!("a non-array data field must be a decode failure"),
    }
}

#[test]
fn exactly_one_selects_or_reports_ambiguity() {
    match exactly_one(vec![7u32]) {
        Ok(x) => assert_eq!(x, 7),
        Err(_) => panic!("one item must be selected"),
    }
    assert!(matches!(
        exactly_one(Vec::<u32>::new()),
        Err(Error::EmptyOrAmbiguous { empty: true })
    ));
    assert!(matches!(
        exactly_one(vec![1u32, 2]),
        Err(Error::EmptyOrAmbiguous { empty: false })
    ));
}

#[test]
fn follow_request_filters_by_follower() {
    let r = Follow::from(UserId(String::from("42")));
    assert_eq!(r.url, format!("{}{}", HELIX_BASE_URL, "/users/follows"));
    assert_eq!(r.query, vec![(String::from("from_id"), String::from("42"))]);
}

#[test]
fn game_requests_name_each_id() {
    let r = Game::list(vec![GameId(String::from("1")), GameId(String::from("2"))]);
    assert_eq!(r.url, format!("{}{}", HELIX_BASE_URL, "/games"));
    assert_eq!(
        r.query,
        vec![
            (String::from("id"), String::from("1")),
            (String::from("id"), String::from("2")),
        ]
    );
    let r = GameId(String::from("9")).get();
    assert_eq!(r.url, format!("{}{}", HELIX_BASE_URL, "/games"));
    assert_eq!(r.query, vec![(String::from("id"), String::from("9"))]);
}

#[test]
fn stream_list_concatenates_the_filters_in_order() {
    let r = Stream::list(
        Some(vec![GameId(String::from("g1"))]),
        None,
        Some(vec![String::from("de"), String::from("en")]),
    );
    assert_eq!(r.url, format!("{}{}", HELIX_BASE_URL, "/streams"));
    assert_eq!(
        r.query,
        vec![
            (String::from("game_id"), String::from("g1")),
            (String::from("language"), String::from("de")),
            (String::from("language"), String::from("en")),
        ]
    );
    let r = Stream::list(None, None, None);
    assert!(r.query.is_empty());
}

#[test]
fn user_requests_cover_names_ids_and_me() {
    let r = User::by_names(vec![String::from("alice")]);
    assert_eq!(r.url, format!("{}{}", HELIX_BASE_URL, "/users"));
    assert_eq!(r.query, vec![(String::from("login"), String::from("alice"))]);
    let r = User::list(vec![UserId(String::from("7"))]);
    assert_eq!(r.query, vec![(String::from("id"), String::from("7"))]);
    let r = User::me();
    assert_eq!(r.url, format!("{}{}", HELIX_BASE_URL, "/users"));
    assert!(r.query.is_empty());
}

#[test]
fn chatlog_request_names_the_offset_in_seconds() {
    let r = VideoId(String::from("v123")).chatlog_after_timestamp(90);
    assert_eq!(r.url, "https://api.twitch.tv/v5/videos/v123/comments");
    assert_eq!(
        r.query,
        vec![(String::from("content_offset_seconds"), String::from("90"))]
    );
}

#[test]
fn stream_url_names_stream_and_channel() {
    let s = StreamId(String::from("sid"));
    let u = UserId(String::from("uid"));
    let stream = Stream {
        game_id: GameId(String::from("g")),
        id: s,
        language: String::from("en"),
        started_at: String::from("2020-01-01T00:00:00Z"),
        tag_ids: Vec::new(),
        thumbnail_url: String::from(""),
        title: String::from("t"),
        stream_type: helix_client::model::StreamType::Live,
        user_id: u,
        user_name: String::from("n"),
        viewer_count: 0,
    };
    assert_eq!(stream.url(), "https://twitch.tv/streams/sid/channel/uid");
    let r = stream.game();
    assert_eq!(r.query, vec![(String::from("id"), String::from("g"))]);
}

#[test]
fn decimal_rendering_is_exact() {
    assert_eq!(u64_to_dec(0), "0");
    assert_eq!(u64_to_dec(7), "7");
    assert_eq!(u64_to_dec(90), "90");
    assert_eq!(u64_to_dec(1234567890), "1234567890");
    assert_eq!(u64_to_dec(u64::MAX), "18446744073709551615");
}
