use hare::data_plane::error::DataPlaneError;
use hare::web::health::{health_status, HealthCheckMode, UrlParameters as HealthParameters};
use hare::web::redirect::{
    form_urlencode_text, redirect_error_status, redirect_step, Lookup, Query, RedirectAction, RedirectStage,
    UrlParameters,
};
use hare::web::state::AppState;

/// Runs a redirect against a fixed set of shortcuts, as the web server runs it against
/// the data plane; returns the answer and the aliases looked up.
fn run_redirect(
    raw: Option<&str>,
    fallback: Option<&str>,
    shortcuts: &[(&str, &str)],
    default: Option<&str>,
) -> (Result<String, DataPlaneError>, Vec<String>) {
    let query = Query::from(raw);
    let mut stage = RedirectStage::Start;
    let mut looked_up: Option<Lookup> = None;
    let mut asked: Vec<String> = Vec::new();
    loop {
        let (next, action) = redirect_step(&query, fallback, stage, looked_up.take());
        stage = next;
        match action {
            RedirectAction::GetShortcutByAlias(alias) => {
                looked_up = Some(match shortcuts.iter().find(|(a, _)| *a == alias) {
                    Some((_, url)) => Lookup::Found(url.to_string()),
                    None => Lookup::Failed(DataPlaneError::NotFound { resource_id: alias.clone() }),
                });
                asked.push(alias);
            },
            RedirectAction::GetDefaultFallbackShortcut => {
                looked_up = Some(match default {
                    Some(url) => Lookup::Found(url.to_string()),
                    None => Lookup::Failed(DataPlaneError::NotFound { resource_id: String::new() }),
                });
                asked.push("<default>".to_string());
            },
            RedirectAction::Respond(result) => return (result, asked),
        }
    }
}

const SHORTCUTS: [(&str, &str); 3] = [
    ("g", "https://www.google.com/search?q={}"),
    ("w", "https://en.wikipedia.org/w/index.php?search={}"),
    ("nyt", "https://www.nytimes.com"),
];

#[test]
fn test_query_from_splits_alias_and_parameters() {
    let query = Query::from(Some("g monkeys are fun"));
    assert_eq!(query.alias, Some("g"));
    assert_eq!(query.parameters, Some("monkeys are fun"));
    assert_eq!(query.as_raw_ref(), Some("g monkeys are fun"));
    assert_eq!(query.raw, Some("g monkeys are fun"));
    assert!(!query.is_empty());
}

#[test]
fn test_query_split_loses_nothing() {
    for raw in ["g monkeys are fun", "nyt", " lead", "trail ", "a  b"] {
        let query = Query::from(Some(raw));
        let alias = query.alias.unwrap();
        assert!(!alias.contains(' '));
        let rejoined = match query.parameters {
            Some(parameters) => format!("{} {}", alias, parameters),
            None => alias.to_string(),
        };
        assert_eq!(rejoined, raw);
    }
}

#[test]
fn test_query_from_alias_only() {
    let query = Query::from(Some("nyt"));
    assert_eq!(query.alias, Some("nyt"));
    assert_eq!(query.parameters, None);
}

#[test]
fn test_query_from_empty_or_missing() {
    let empty = Query::from(Some(""));
    assert!(empty.is_empty());
    assert_eq!(empty.alias, None);
    assert_eq!(empty.parameters, None);
    assert_eq!(empty.as_raw_ref(), Some(""));
    let missing = Query::from(None);
    assert!(missing.is_empty());
    assert_eq!(missing.as_raw_ref(), None);
}

#[test]
fn test_query_from_leading_space() {
    let query = Query::from(Some(" monkeys"));
    assert_eq!(query.alias, Some(""));
    assert_eq!(query.parameters, Some("monkeys"));
}

#[test]
fn test_form_urlencode_text() {
    assert_eq!(form_urlencode_text("monkeys are fun/ok?&"), "monkeys+are+fun%2Fok%3F%26");
    assert_eq!(form_urlencode_text("a-b_c.d*e"), "a-b_c.d*e");
    assert_eq!(form_urlencode_text("{é}"), "%7B%C3%A9%7D");
    assert_eq!(form_urlencode_text(""), "");
}

#[test]
fn test_redirect_when_alias_resolves_then_parameters_injected() {
    let (result, asked) = run_redirect(Some("g monkeys"), None, &SHORTCUTS, None);
    assert_eq!(result.unwrap(), "https://www.google.com/search?q=monkeys");
    assert_eq!(asked, vec!["g".to_string()]);
}

#[test]
fn test_redirect_when_alias_without_parameters_then_placeholder_emptied() {
    let (result, _) = run_redirect(Some("w"), None, &SHORTCUTS, None);
    assert_eq!(result.unwrap(), "https://en.wikipedia.org/w/index.php?search=");
    let (result, _) = run_redirect(Some("nyt"), None, &SHORTCUTS, None);
    assert_eq!(result.unwrap(), "https://www.nytimes.com");
}

#[test]
fn test_redirect_when_alias_unknown_then_fallback_gets_whole_query() {
    let (result, asked) = run_redirect(Some("unknown monkeys"), Some("g"), &SHORTCUTS, None);
    assert_eq!(result.unwrap(), "https://www.google.com/search?q=unknown+monkeys");
    assert_eq!(asked, vec!["unknown".to_string(), "g".to_string()]);
}

#[test]
fn test_redirect_when_fallback_unknown_then_default_fallback() {
    let (result, asked) = run_redirect(
        Some("unknown monkeys"),
        Some("nope"),
        &SHORTCUTS,
        Some("https://duckduckgo.com/?q={}&ia={}"),
    );
    assert_eq!(result.unwrap(), "https://duckduckgo.com/?q=unknown+monkeys&ia=unknown+monkeys");
    assert_eq!(asked, vec!["unknown".to_string(), "nope".to_string(), "<default>".to_string()]);
}

#[test]
fn test_redirect_when_empty_query_then_default_without_lookup_by_alias() {
    let (result, asked) = run_redirect(None, None, &SHORTCUTS, Some("https://duckduckgo.com/?q={}"));
    assert_eq!(result.unwrap(), "https://duckduckgo.com/?q=");
    assert_eq!(asked, vec!["<default>".to_string()]);
}

#[test]
fn test_redirect_when_no_default_fallback_then_not_found() {
    let (result, _) = run_redirect(Some("unknown"), None, &SHORTCUTS, None);
    let err = result.unwrap_err();
    assert_eq!(err, DataPlaneError::NotFound { resource_id: String::new() });
    assert_eq!(redirect_error_status(&err), 404);
    assert_eq!(redirect_error_status(&DataPlaneError::Sqlx { message: "down".to_string() }), 500);
}

#[test]
fn test_redirect_url_parameters() {
    let parameters = UrlParameters::new(Some("g monkeys".to_string()), None);
    assert_eq!(parameters.query(), Some("g monkeys"));
    assert_eq!(parameters.fallback(), None);
}

#[test]
fn test_health_check_modes() {
    assert_eq!(HealthCheckMode::default(), HealthCheckMode::Simple);
    let simple = HealthParameters::default();
    assert_eq!(simple.mode(), HealthCheckMode::Simple);
    assert!(!simple.checks_data_plane());
    assert_eq!(health_status(&simple, false), 200);

    let full = HealthParameters::new(Some(HealthCheckMode::Full));
    assert!(full.checks_data_plane());
    assert_eq!(health_status(&full, true), 200);
    assert_eq!(health_status(&full, false), 424);
    assert_eq!(HealthParameters::new(None).mode(), HealthCheckMode::Simple);
}

#[test]
fn test_app_state_holds_client() {
    let state = AppState { data_plane_client: "client" };
    assert_eq!(state.data_plane_client, "client");
}
