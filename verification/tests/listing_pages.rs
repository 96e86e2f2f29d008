use shortlink_core::errors::ApiError;
use shortlink_core::listing::list_begin;
use shortlink_core::listing::list_render;
use shortlink_core::listing::ListQuery;
use shortlink_core::listing::StoreEntry;
use shortlink_core::listing::StorePage;
use shortlink_core::text::has_substring;

fn auth_header() -> Option<String> {
    Some("Bearer secret".to_string())
}

fn allowed() -> Vec<String> {
    vec!["secret".to_string()]
}

fn entry(name: &str, meta: &str) -> StoreEntry {
    StoreEntry { name: name.to_string(), metadata: Some(meta.to_string()), expiration: 1_800_000_000 }
}

fn query(q: Option<&str>, c: Option<&str>, all: Option<bool>) -> ListQuery {
    ListQuery { q: q.map(str::to_string), c: c.map(str::to_string), all }
}

#[test]
fn listing_needs_authorization() {
    let r = list_begin(&Some("Bearer nope".to_string()), &allowed(), query(None, None, None));
    assert!(matches!(r, Err(ApiError::Forbidden)));
}

#[test]
fn all_mode_accumulates_every_page_until_completion() {
    let mut session = list_begin(&auth_header(), &allowed(), query(None, None, Some(true)))
        .ok()
        .expect("session");
    assert_eq!(session.cursor, None);

    let pages = vec![
        StorePage {
            keys: vec![entry("k1", "http://a.example"), entry("k2", "http://b.example")],
            cursor: Some("c1".to_string()),
            list_complete: false,
        },
        StorePage {
            keys: vec![entry("k3", "http://c.example")],
            cursor: Some("c2".to_string()),
            list_complete: false,
        },
        StorePage {
            keys: vec![entry("k4", "http://d.example"), entry("k5", "http://e.example")],
            cursor: Some("c3".to_string()),
            list_complete: true,
        },
    ];
    let mut fetched = 0;
    for page in pages {
        fetched += 1;
        let more = session.absorb(page);
        assert_eq!(more, fetched < 3, "page {fetched}");
        if !more {
            break;
        }
    }
    assert_eq!(fetched, 3);
    assert!(session.complete);
    let names: Vec<&str> = session.entries.iter().map(|e| e.name.as_str()).collect();
    assert_eq!(names, ["k1", "k2", "k3", "k4", "k5"]);

    let answer = list_render(&session, "d.example.org");
    assert!(answer.list_complete);
    // the cursor of the last page is reported even though iteration finished
    assert_eq!(answer.cursor, Some("c3".to_string()));
    assert_eq!(answer.links.len(), 5);
    let first = &answer.links[0];
    assert_eq!(first.key, "k1");
    assert_eq!(first.no_https, "d.example.org/k1");
    assert_eq!(first.full, "https://d.example.org/k1");
    assert_eq!(first.url.as_deref(), Some("http://a.example"));
    assert_eq!(first.expiration, 1_800_000_000);
}

#[test]
fn one_page_mode_answers_with_the_supplied_cursor() {
    let mut session = list_begin(&auth_header(), &allowed(), query(None, Some("start"), None))
        .ok()
        .expect("session");
    let more = session.absorb(StorePage {
        keys: vec![entry("k1", "http://a.example")],
        cursor: Some("next".to_string()),
        list_complete: false,
    });
    assert!(!more);
    let answer = list_render(&session, "d.example.org");
    assert!(!answer.list_complete);
    assert_eq!(answer.cursor, Some("start".to_string()));
    assert_eq!(answer.links.len(), 1);
}

#[test]
fn search_filters_on_metadata_substring() {
    let mut session = list_begin(&auth_header(), &allowed(), query(Some("b.exa"), None, None))
        .ok()
        .expect("session");
    session.absorb(StorePage {
        keys: vec![
            entry("k1", "http://a.example"),
            entry("k2", "http://b.example"),
            StoreEntry { name: "k3".to_string(), metadata: None, expiration: 7 },
        ],
        cursor: None,
        list_complete: true,
    });
    let answer = list_render(&session, "d.example.org");
    assert_eq!(answer.links.len(), 1);
    assert_eq!(answer.links[0].key, "k2");
}

#[test]
fn exactly_limit_long_metadata_omits_the_url_field() {
    let truncated = "m".repeat(1022);
    let shorter = "m".repeat(1021);
    let mut session = list_begin(&auth_header(), &allowed(), query(None, None, None))
        .ok()
        .expect("session");
    session.absorb(StorePage {
        keys: vec![entry("k1", &truncated), entry("k2", &shorter)],
        cursor: None,
        list_complete: true,
    });
    let answer = list_render(&session, "d.example.org");
    assert_eq!(answer.links.len(), 2);
    assert_eq!(answer.links[0].url, None);
    assert_eq!(answer.links[1].url.as_deref(), Some(shorter.as_str()));
}

#[test]
fn entries_without_metadata_render_an_empty_target() {
    let mut session = list_begin(&auth_header(), &allowed(), query(None, None, None))
        .ok()
        .expect("session");
    session.absorb(StorePage {
        keys: vec![StoreEntry { name: "k".to_string(), metadata: None, expiration: 3 }],
        cursor: None,
        list_complete: true,
    });
    let answer = list_render(&session, "d.example.org");
    assert_eq!(answer.links[0].url.as_deref(), Some(""));
}

#[test]
fn substring_search_matches_anywhere() {
    assert!(has_substring("http://example.com/path", "example"));
    assert!(has_substring("abc", ""));
    assert!(has_substring("abc", "abc"));
    assert!(!has_substring("abc", "abcd"));
    assert!(!has_substring("abc", "x"));
    assert!(has_substring("aab", "ab"));
    assert!(!has_substring("", "a"));
    assert!(has_substring("", ""));
}
