use rustytunes::search::{
    build_playlist_results, build_track_results, pick_thumbnail, playlist_id_from_url,
    track_from_api, ApiItem, SearchError, SearchResult,
};
use rustytunes::textutil::{
    join_words, number_to_emoji, queue_page_bounds, uwu_text, wakeup_bounce_count,
};

fn mk_item(id: &str, title: &str) -> ApiItem {
    ApiItem {
        video_id: Some(id.to_string()),
        title: Some(title.to_string()),
        channel: Some("The &quot;Channel&quot;".to_string()),
        thumbnail_url: Some(format!("https://img.example/{}.jpg", id)),
    }
}

#[test]
fn track_from_api_decodes_entities_and_builds_url() {
    let t = track_from_api(mk_item("abc123", "Rick &amp; Morty")).unwrap();
    assert_eq!(t.id, "abc123");
    assert_eq!(t.metadata.id, "abc123");
    assert_eq!(t.metadata.title, "Rick & Morty");
    assert_eq!(t.metadata.channel, "The \"Channel\"");
    assert_eq!(t.metadata.track_url, "https://www.youtube.com/watch?v=abc123");
    assert_eq!(
        t.metadata.thumbnail_url.as_deref(),
        Some("https://img.example/abc123.jpg")
    );
}

#[test]
fn track_from_api_requires_all_fields() {
    let mut item = mk_item("abc", "t");
    item.channel = None;
    assert!(track_from_api(item).is_none());
    let mut item = mk_item("abc", "t");
    item.video_id = None;
    assert!(track_from_api(item).is_none());
    let mut item = mk_item("abc", "t");
    item.thumbnail_url = None;
    let t = track_from_api(item).unwrap();
    assert!(t.metadata.thumbnail_url.is_none());
}

#[test]
fn single_track_search_returns_the_first() {
    let items = vec![mk_item("one", "First")];
    match build_track_results(items, "q".to_string(), 1).unwrap() {
        SearchResult::Track(t) => assert_eq!(t.id, "one"),
        other => panic!("unexpected result {:?}", other),
    }
}

#[test]
fn multi_track_search_returns_candidates_in_order() {
    let items = vec![mk_item("one", "First"), mk_item("two", "Second")];
    match build_track_results(items, "q".to_string(), 6).unwrap() {
        SearchResult::Tracks(ts) => {
            assert_eq!(ts.len(), 2);
            assert_eq!(ts[0].id, "one");
            assert_eq!(ts[1].id, "two");
        }
        other => panic!("unexpected result {:?}", other),
    }
}

#[test]
fn empty_search_is_not_found() {
    let r = build_track_results(Vec::new(), "some url".to_string(), 1);
    match r {
        Err(SearchError::VideoNotFound(q)) => assert_eq!(q, "some url"),
        other => panic!("unexpected result {:?}", other),
    }
}

#[test]
fn malformed_search_item_is_fatal() {
    let mut bad = mk_item("x", "t");
    bad.title = None;
    let items = vec![mk_item("one", "First"), bad];
    assert!(matches!(
        build_track_results(items, "q".to_string(), 6),
        Err(SearchError::InternalError(_))
    ));
}

#[test]
fn playlist_results_skip_malformed_items() {
    let mut bad = mk_item("x", "t");
    bad.video_id = None;
    let items = vec![mk_item("one", "First"), bad, mk_item("two", "Second")];
    match build_playlist_results(items, "url".to_string()).unwrap() {
        SearchResult::Playlist(ts) => {
            assert_eq!(ts.len(), 2);
            assert_eq!(ts[0].id, "one");
            assert_eq!(ts[1].id, "two");
        }
        other => panic!("unexpected result {:?}", other),
    }
}

#[test]
fn empty_playlist_lookup_is_not_found() {
    assert!(matches!(
        build_playlist_results(Vec::new(), "url".to_string()),
        Err(SearchError::VideoNotFound(_))
    ));
}

#[test]
fn playlist_id_strips_the_prefix() {
    assert_eq!(
        playlist_id_from_url("https://www.youtube.com/playlist?list=PL123abc"),
        "PL123abc"
    );
    assert_eq!(playlist_id_from_url("PL123abc"), "PL123abc");
    assert_eq!(playlist_id_from_url(""), "");
}

#[test]
fn thumbnail_priority_order() {
    let pick = pick_thumbnail(
        None,
        Some("high".to_string()),
        Some("medium".to_string()),
        None,
        Some("fallback".to_string()),
    );
    assert_eq!(pick.as_deref(), Some("high"));
    let pick = pick_thumbnail(None, None, None, None, Some("fallback".to_string()));
    assert_eq!(pick.as_deref(), Some("fallback"));
    assert_eq!(pick_thumbnail(None, None, None, None, None), None);
}

#[test]
fn numbers_become_emoji_digit_codes() {
    assert_eq!(number_to_emoji(0), ":zero:");
    assert_eq!(number_to_emoji(7), ":seven:");
    assert_eq!(number_to_emoji(123), ":one::two::three:");
    assert_eq!(number_to_emoji(1000), ":one::zero::zero::zero:");
}

#[test]
fn words_are_joined_with_single_spaces() {
    assert_eq!(join_words(&Vec::new()), "");
    assert_eq!(join_words(&vec!["one".to_string()]), "one");
    assert_eq!(
        join_words(&vec!["one".to_string(), "two".to_string(), "three".to_string()]),
        "one two three"
    );
}

#[test]
fn queue_pages_window_ten_entries() {
    assert_eq!(queue_page_bounds(25, 1), (0, 10));
    assert_eq!(queue_page_bounds(25, 2), (10, 20));
    assert_eq!(queue_page_bounds(25, 3), (20, 25));
    // a page past the end falls back to the last entry
    assert_eq!(queue_page_bounds(25, 9), (24, 25));
    // page zero reads as the first page
    assert_eq!(queue_page_bounds(25, 0), (0, 10));
    assert_eq!(queue_page_bounds(0, 1), (0, 0));
    assert_eq!(queue_page_bounds(7, 1), (0, 7));
}

#[test]
fn wakeup_count_is_clamped() {
    assert_eq!(wakeup_bounce_count(None), 2);
    assert_eq!(wakeup_bounce_count(Some(0)), 1);
    assert_eq!(wakeup_bounce_count(Some(3)), 3);
    assert_eq!(wakeup_bounce_count(Some(99)), 5);
}

#[test]
fn uwu_transforms_the_joined_text() {
    let words = vec!["hello".to_string(), "world".to_string()];
    assert_eq!(uwu_text(&words), "hewwo wowwd");
}
