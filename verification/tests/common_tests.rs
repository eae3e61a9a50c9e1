use hare::cli::{
    bootstrap_step, list_step, BootstrapAction, BootstrapEvent,
    add_aliases_request, bootstrap_default_fallback, bootstrap_request, bootstrap_shortcuts, create_shortcut_request,
    delete_alias_request, delete_shortcut_request, get_shortcut_request, list_shortcuts_request, next_list_request,
    set_default_fallback_request, shortcut_reference, update_shortcut_request,
};
use hare::control_plane::model::{Alias, ListShortcutsResponse, Reference, Shortcut, ShortcutReference};
use hare::data_plane::error::RpcCode;
use hare::data_plane::pagination::{PaginationContinuation, PaginationRequest};
use hare::header::{filter_headers, FilterHeadersLayer};
use hare::request_id::{RequestIdGenerator, REQUEST_ID_HEADER_NAME};
use hare::text::{contains_placeholder, decimal_string, find_placeholder, replace_all, replace_first, signed_decimal_string};

// ============================================================================
// Text
// ============================================================================

#[test]
fn test_placeholders() {
    assert_eq!(find_placeholder("https://x.com/{}"), Some(14));
    assert_eq!(find_placeholder("https://x.com/{"), None);
    assert!(contains_placeholder("a{}b"));
    assert!(!contains_placeholder("a{ }b"));
    assert_eq!(replace_first("a{}b{}c", "X"), "aXb{}c");
    assert_eq!(replace_all("a{}b{}c", "X"), "aXbXc");
    assert_eq!(replace_all("{{}}", ""), "{}");
    assert_eq!(replace_first("no placeholder", "X"), "no placeholder");
}

#[test]
fn test_decimal_strings() {
    assert_eq!(decimal_string(0), "0");
    assert_eq!(decimal_string(1234567890), "1234567890");
    assert_eq!(decimal_string(u64::MAX), "18446744073709551615");
    assert_eq!(signed_decimal_string(-42), "-42");
    assert_eq!(signed_decimal_string(i64::MIN), "-9223372036854775808");
}

// ============================================================================
// Headers and request IDs
// ============================================================================

#[test]
fn test_filter_headers_removes_named_headers_case_insensitively() {
    let mut headers = http::HeaderMap::new();
    headers.append("x-request-id", "injected-1".parse().unwrap());
    headers.append("x-request-id", "injected-2".parse().unwrap());
    headers.insert(http::header::USER_AGENT, "curl/8.0".parse().unwrap());
    filter_headers(&mut headers, &vec!["X-Request-ID".to_string()]);
    assert!(headers.get("x-request-id").is_none());
    assert_eq!(headers.get(http::header::USER_AGENT).unwrap(), "curl/8.0");
    assert_eq!(headers.len(), 1);
}

#[test]
fn test_filter_headers_layer_wraps_service() {
    let layer = FilterHeadersLayer::new(vec![REQUEST_ID_HEADER_NAME.to_string()]);
    let filter = layer.layer(7u8);
    assert_eq!(filter.inner, 7);
    assert_eq!(filter.headers, vec!["x-request-id".to_string()]);
}

#[test]
fn test_generated_request_ids_are_v4_uuids() {
    let id = RequestIdGenerator::generate_request_id();
    let text = id.get_id();
    assert_eq!(text.len(), 36);
    assert!(uuid::Uuid::parse_str(text).is_ok());
    assert_eq!(uuid::Uuid::parse_str(text).unwrap().get_version_num(), 4);
    assert_eq!(id.to_text(), text);
}

// ============================================================================
// Command line client
// ============================================================================

#[test]
fn test_bootstrap_shortcuts_table() {
    let shortcuts = bootstrap_shortcuts();
    assert_eq!(shortcuts.len(), 24);
    assert_eq!(shortcuts[0].url, "https://duckduckgo.com/?q={}");
    assert!(shortcuts[0].is_fallback);
    assert_eq!(shortcuts[0].aliases, vec!["d", "ddg", "duckduckgo"]);
    assert_eq!(shortcuts[1].aliases, vec!["g", "google"]);
    assert!(shortcuts.iter().all(|s| !s.aliases.is_empty()));
    assert_eq!(shortcuts.iter().filter(|s| s.is_fallback).count(), 3);
    let mut all: Vec<&str> = shortcuts.iter().flat_map(|s| s.aliases.iter().copied()).collect();
    let total = all.len();
    all.sort();
    all.dedup();
    assert_eq!(all.len(), total);
    for alias in ["google", "duckduckgo"] {
        let owners: Vec<_> = shortcuts.iter().filter(|s| s.aliases.contains(&alias)).collect();
        assert_eq!(owners.len(), 1);
        assert!(owners[0].is_fallback);
    }
}

#[test]
fn test_bootstrap_request() {
    let shortcuts = bootstrap_shortcuts();
    let request = bootstrap_request(&shortcuts[1]);
    let shortcut = request.shortcut.unwrap();
    assert_eq!(shortcut.url, "https://www.google.com/search?q={}");
    assert_eq!(shortcut.is_fallback, Some(true));
    assert_eq!(shortcut.description, "Search Google");
    assert_eq!(
        shortcut.aliases,
        vec![Alias { uid: None, name: "g".to_string() }, Alias { uid: None, name: "google".to_string() }]
    );
}

#[test]
fn test_bootstrap_default_fallback_prefers_google() {
    assert_eq!(bootstrap_default_fallback(true, true), Some("google"));
    assert_eq!(bootstrap_default_fallback(false, true), Some("duckduckgo"));
    assert_eq!(bootstrap_default_fallback(false, false), None);
}

#[test]
fn test_cli_requests() {
    let create = create_shortcut_request("https://x.com/{}", false, "X", &vec!["x", "t"]);
    assert_eq!(create.shortcut.unwrap().aliases.len(), 2);

    let add = add_aliases_request("uid-1", &vec!["ddg"]);
    assert_eq!(add.shortcut_ref, Some(ShortcutReference { reference: Some(Reference::Uid("uid-1".to_string())) }));
    assert_eq!(add.aliases, vec![Alias { uid: None, name: "ddg".to_string() }]);

    assert_eq!(shortcut_reference(Some("u"), Some("a")).reference, Some(Reference::Uid("u".to_string())));
    assert_eq!(shortcut_reference(None, Some("a")).reference, Some(Reference::Alias("a".to_string())));
    assert_eq!(shortcut_reference(None, None).reference, None);

    assert_eq!(
        get_shortcut_request(None, Some("g")).shortcut_ref,
        Some(ShortcutReference { reference: Some(Reference::Alias("g".to_string())) })
    );
    assert_eq!(
        set_default_fallback_request(None, Some("google")).shortcut_ref,
        Some(ShortcutReference { reference: Some(Reference::Alias("google".to_string())) })
    );
    assert_eq!(
        delete_shortcut_request("uid-1").shortcut_ref,
        Some(ShortcutReference { reference: Some(Reference::Uid("uid-1".to_string())) })
    );
    assert_eq!(delete_alias_request("ddg").alias, "ddg");

    let update = update_shortcut_request(Some("uid-1"), None, None, Some(true), Some("New"));
    let values = update.shortcut.unwrap();
    assert_eq!(values.url, None);
    assert_eq!(values.is_fallback, Some(true));
    assert_eq!(values.description, Some("New".to_string()));
}

#[test]
fn test_cli_paging() {
    assert_eq!(
        list_shortcuts_request(10).pagination,
        Some(PaginationRequest { continuation_token: None, page_size: Some(10) })
    );
    let next = next_list_request(Some(PaginationContinuation { next_continuation_token: Some("t".to_string()) }));
    assert_eq!(
        next.unwrap().pagination,
        Some(PaginationRequest { continuation_token: Some("t".to_string()), page_size: None })
    );
    assert!(next_list_request(Some(PaginationContinuation { next_continuation_token: None })).is_none());
    assert!(next_list_request(None).is_none());
}

fn sample_shortcut(uid: &str) -> Shortcut {
    Shortcut {
        uid: uid.to_string(),
        url: "https://x.com/{}".to_string(),
        num_params: 1,
        is_fallback: false,
        is_default_fallback: false,
        description: "X".to_string(),
        aliases: vec![],
    }
}

#[test]
fn test_list_step_collects_pages_until_no_token() {
    let first = ListShortcutsResponse {
        shortcuts: vec![sample_shortcut("a"), sample_shortcut("b")],
        pagination_continuation: Some(PaginationContinuation { next_continuation_token: Some("t".to_string()) }),
    };
    let (listed, next) = list_step(vec![], first);
    assert_eq!(listed, vec![sample_shortcut("a"), sample_shortcut("b")]);
    assert_eq!(
        next.unwrap().pagination,
        Some(PaginationRequest { continuation_token: Some("t".to_string()), page_size: None })
    );
    let last = ListShortcutsResponse {
        shortcuts: vec![sample_shortcut("c")],
        pagination_continuation: Some(PaginationContinuation { next_continuation_token: None }),
    };
    let (listed, next) = list_step(listed, last);
    assert_eq!(listed.len(), 3);
    assert_eq!(listed[2].uid, "c");
    assert!(next.is_none());
}

#[test]
fn test_bootstrap_steps_create_every_shortcut_then_set_default() {
    let table = bootstrap_shortcuts();
    let mut next = 0usize;
    let mut event = BootstrapEvent::Begin;
    let mut created: Vec<String> = Vec::new();
    loop {
        let (position, action) = bootstrap_step(next, true, true, event);
        next = position;
        match action {
            BootstrapAction::Create(request) => {
                let url = request.shortcut.unwrap().url;
                // The second shortcut already exists: that is no failure.
                event = if url == table[1].url {
                    BootstrapEvent::CreateFailed(RpcCode::AlreadyExists)
                } else {
                    BootstrapEvent::Created
                };
                created.push(url);
            },
            BootstrapAction::SetDefaultFallback(request) => {
                assert_eq!(
                    request.shortcut_ref,
                    Some(ShortcutReference { reference: Some(Reference::Alias("google".to_string())) })
                );
                event = BootstrapEvent::DefaultFallbackSet;
            },
            BootstrapAction::Fail => panic!("bootstrap failed"),
            BootstrapAction::Done => break,
        }
    }
    let expected: Vec<String> = table.iter().map(|s| s.url.to_string()).collect();
    assert_eq!(created, expected);
}

#[test]
fn test_bootstrap_step_stops_on_other_failures() {
    let (_, action) = bootstrap_step(3, false, false, BootstrapEvent::CreateFailed(RpcCode::Internal));
    assert!(matches!(action, BootstrapAction::Fail));
    let (_, action) = bootstrap_step(24, false, false, BootstrapEvent::Created);
    assert!(matches!(action, BootstrapAction::Done));
    let (_, action) = bootstrap_step(25, true, false, BootstrapEvent::DefaultFallbackFailed);
    assert!(matches!(action, BootstrapAction::Fail));
}
