use surrealist::connection::{
    advance_open, begin_open, connect_url, endpoint_from_capture, endpoint_url, failure_at,
    parse_auth_mode,
    plan_open, resolve_credentials, resolve_endpoint, scope_params, AuthMode, ConnectionError,
    ConnectionInfo, Credentials, OpenAction, OpenStage, ScopeField,
};

fn field(subject: &str, value: &str) -> ScopeField {
    ScopeField { subject: subject.to_string(), value: value.to_string() }
}

fn info(endpoint: &str, auth_mode: &str) -> ConnectionInfo {
    ConnectionInfo {
        namespace: "ns".to_string(),
        database: "db".to_string(),
        endpoint: endpoint.to_string(),
        username: "root".to_string(),
        password: "secret".to_string(),
        auth_mode: auth_mode.to_string(),
        scope: "account".to_string(),
        scope_fields: vec![field("email", "a@b.c"), field("pass", "1"), field("email", "x@y.z")],
    }
}

fn pairs(fields: &[ScopeField]) -> Vec<(String, String)> {
    let mut out: Vec<(String, String)> =
        fields.iter().map(|f| (f.subject.clone(), f.value.clone())).collect();
    out.sort();
    out
}

#[test]
fn auth_mode_names_select_their_mode() {
    assert_eq!(parse_auth_mode("root"), AuthMode::Root);
    assert_eq!(parse_auth_mode("namespace"), AuthMode::Namespace);
    assert_eq!(parse_auth_mode("database"), AuthMode::Database);
    assert_eq!(parse_auth_mode("scope"), AuthMode::Scope);
}

#[test]
fn unknown_auth_mode_selects_no_sign_in() {
    assert_eq!(parse_auth_mode("none"), AuthMode::Anonymous);
    assert_eq!(parse_auth_mode(""), AuthMode::Anonymous);
    assert_eq!(parse_auth_mode("Root"), AuthMode::Anonymous);
    assert_eq!(parse_auth_mode("roots"), AuthMode::Anonymous);
}

#[test]
fn scope_params_last_write_wins() {
    let fields = vec![field("email", "a@b.c"), field("pass", "1"), field("email", "x@y.z")];
    let params = scope_params(&fields);
    assert_eq!(
        pairs(&params),
        vec![("email".to_string(), "x@y.z".to_string()), ("pass".to_string(), "1".to_string())]
    );
}

#[test]
fn scope_params_of_no_fields_are_empty() {
    assert!(scope_params(&Vec::new()).is_empty());
}

#[test]
fn scope_params_pass_unknown_names_through() {
    let fields = vec![field("", ""), field("anything at all", "\u{1F600}")];
    let params = scope_params(&fields);
    assert_eq!(
        pairs(&params),
        vec![
            ("".to_string(), "".to_string()),
            ("anything at all".to_string(), "\u{1F600}".to_string())
        ]
    );
}

#[test]
fn root_credentials_use_name_and_password() {
    match resolve_credentials(&info("localhost:8000", "root")) {
        Some(Credentials::Root { username, password }) => {
            assert_eq!(username, "root");
            assert_eq!(password, "secret");
        }
        _ => panic!("expected root credentials"),
    }
}

#[test]
fn namespace_credentials_add_the_namespace() {
    match resolve_credentials(&info("localhost:8000", "namespace")) {
        Some(Credentials::Namespace { namespace, username, password }) => {
            assert_eq!(namespace, "ns");
            assert_eq!(username, "root");
            assert_eq!(password, "secret");
        }
        _ => panic!("expected namespace credentials"),
    }
}

#[test]
fn database_credentials_add_the_database() {
    match resolve_credentials(&info("localhost:8000", "database")) {
        Some(Credentials::Database { namespace, database, username, password }) => {
            assert_eq!(namespace, "ns");
            assert_eq!(database, "db");
            assert_eq!(username, "root");
            assert_eq!(password, "secret");
        }
        _ => panic!("expected database credentials"),
    }
}

#[test]
fn scope_credentials_carry_the_field_map() {
    match resolve_credentials(&info("localhost:8000", "scope")) {
        Some(Credentials::Scope { namespace, database, scope, params }) => {
            assert_eq!(namespace, "ns");
            assert_eq!(database, "db");
            assert_eq!(scope, "account");
            assert_eq!(
                pairs(&params),
                vec![
                    ("email".to_string(), "x@y.z".to_string()),
                    ("pass".to_string(), "1".to_string())
                ]
            );
        }
        _ => panic!("expected scope credentials"),
    }
}

#[test]
fn other_modes_give_no_credentials() {
    assert!(resolve_credentials(&info("localhost:8000", "token")).is_none());
}

#[test]
fn secure_prefix_is_stripped_and_kept_as_flag() {
    let endpoint = resolve_endpoint("https://db.example.com:8000").unwrap();
    assert_eq!(endpoint.address, "db.example.com:8000");
    assert!(endpoint.secure);
}

#[test]
fn insecure_prefix_is_stripped() {
    let endpoint = resolve_endpoint("http://localhost:8000").unwrap();
    assert_eq!(endpoint.address, "localhost:8000");
    assert!(!endpoint.secure);
}

#[test]
fn bare_host_is_taken_as_it_is() {
    let endpoint = resolve_endpoint("localhost:8000").unwrap();
    assert_eq!(endpoint.address, "localhost:8000");
    assert!(!endpoint.secure);
}

#[test]
fn prefix_alone_is_a_bare_host() {
    for text in ["https://", "http://"] {
        let endpoint = resolve_endpoint(text).unwrap();
        assert_eq!(endpoint.address, text);
        assert!(!endpoint.secure);
    }
}

#[test]
fn bare_host_that_begins_like_the_prefix_is_not_encrypted() {
    for text in ["httpsdb.local:8000", "https", "https:", "https:/x", "httpsx://y", "HTTPS://x"] {
        let endpoint = resolve_endpoint(text).unwrap();
        assert_eq!(endpoint.address, text);
        assert!(!endpoint.secure, "{}", text);
    }
}

#[test]
fn only_the_first_prefix_is_taken_off() {
    let endpoint = resolve_endpoint("https://http://x").unwrap();
    assert_eq!(endpoint.address, "http://x");
    assert!(endpoint.secure);
    let endpoint = resolve_endpoint("http://https://x").unwrap();
    assert_eq!(endpoint.address, "https://x");
    assert!(!endpoint.secure);
}

#[test]
fn empty_endpoint_has_no_address() {
    assert!(resolve_endpoint("").is_none());
}

#[test]
fn endpoint_with_line_feed_has_no_address() {
    for text in ["local\nhost", "\n", "https://a\n", "\nhttps://a", "https://\n"] {
        assert!(resolve_endpoint(text).is_none(), "{:?}", text);
    }
}

#[test]
fn other_line_ends_and_spaces_stay_in_the_address() {
    for text in ["a\rb", "\r", " ", "a b", "\t", "µ\u{2028}x"] {
        let endpoint = resolve_endpoint(text).unwrap();
        assert_eq!(endpoint.address, text);
        assert!(!endpoint.secure);
    }
    let endpoint = resolve_endpoint("https://\r").unwrap();
    assert_eq!(endpoint.address, "\r");
    assert!(endpoint.secure);
}

#[test]
fn endpoints_are_split_as_stated_for_every_short_text() {
    let letters = ['h', 't', 'p', 's', ':', '/', 'x', '\n'];
    let mut texts = vec![String::new()];
    let mut frontier = vec![String::new()];
    for _ in 0..4 {
        let mut next = Vec::new();
        for text in &frontier {
            for letter in letters {
                let mut longer = text.clone();
                longer.push(letter);
                next.push(longer);
            }
        }
        texts.extend(next.iter().cloned());
        frontier = next;
    }
    for tail in ["", "x", "/", "s://x", "\n", "x\n"] {
        texts.push(format!("https://{}", tail));
        texts.push(format!("http://{}", tail));
    }
    for text in texts {
        let expected = if text.is_empty() || text.contains('\n') {
            None
        } else if text.starts_with("https://") && text.len() > 8 {
            Some((text[8..].to_string(), true))
        } else if text.starts_with("http://") && text.len() > 7 {
            Some((text[7..].to_string(), false))
        } else {
            Some((text.clone(), false))
        };
        let found = resolve_endpoint(&text).map(|e| (e.address, e.secure));
        assert_eq!(found, expected, "{:?}", text);
    }
}

#[test]
fn endpoint_from_capture_asks_for_the_whole_prefix() {
    let endpoint =
        endpoint_from_capture(Some("https://".to_string()), Some("a".to_string())).unwrap();
    assert_eq!(endpoint.address, "a");
    assert!(endpoint.secure);
    let endpoint =
        endpoint_from_capture(Some("http://".to_string()), Some("a".to_string())).unwrap();
    assert!(!endpoint.secure);
    let endpoint = endpoint_from_capture(None, Some("https".to_string())).unwrap();
    assert_eq!(endpoint.address, "https");
    assert!(!endpoint.secure);
    assert!(endpoint_from_capture(Some("https://".to_string()), None).is_none());
    assert!(endpoint_from_capture(None, None).is_none());
}

#[test]
fn client_connects_by_the_flag() {
    let endpoint = resolve_endpoint("https://db.example.com:8000").unwrap();
    assert_eq!(connect_url(&endpoint), "wss://db.example.com:8000");
    let endpoint = resolve_endpoint("httpsdb.local:8000").unwrap();
    assert_eq!(connect_url(&endpoint), "ws://httpsdb.local:8000");
    let endpoint = resolve_endpoint("http://localhost").unwrap();
    assert_eq!(connect_url(&endpoint), "ws://localhost");
}

#[test]
fn endpoint_url_joins_protocol_and_host() {
    assert_eq!(endpoint_url("wss", "db.example.com"), "wss://db.example.com");
    assert_eq!(endpoint_url("", ""), "://");
}

#[test]
fn plan_holds_every_call_of_the_open() {
    let plan = match plan_open(&info("https://db.example.com", "root")) {
        Ok(plan) => plan,
        Err(_) => panic!("expected a plan"),
    };
    assert_eq!(plan.endpoint.address, "db.example.com");
    assert!(plan.endpoint.secure);
    assert!(matches!(plan.credentials, Some(Credentials::Root { .. })));
    assert_eq!(plan.namespace, "ns");
    assert_eq!(plan.database, "db");
}

#[test]
fn plan_of_a_bare_host_is_not_encrypted() {
    let plan = match plan_open(&info("httpsdb.local:8000", "none")) {
        Ok(plan) => plan,
        Err(_) => panic!("expected a plan"),
    };
    assert_eq!(plan.endpoint.address, "httpsdb.local:8000");
    assert!(!plan.endpoint.secure);
    assert!(plan.credentials.is_none());
}

#[test]
fn plan_of_an_empty_endpoint_is_an_error() {
    match plan_open(&info("", "root")) {
        Err(error) => {
            assert!(matches!(error, ConnectionError::InvalidEndpoint));
            assert_eq!(error.describe(), "Invalid endpoint");
        }
        Ok(_) => panic!("expected an error"),
    }
}

#[test]
fn open_with_sign_in_runs_four_calls() {
    let (stage, action) = begin_open();
    assert_eq!((stage, action), (OpenStage::Connecting, OpenAction::Connect));
    let (stage, action) = advance_open(stage, true, true);
    assert_eq!((stage, action), (OpenStage::SigningIn, OpenAction::SignIn));
    let (stage, action) = advance_open(stage, true, true);
    assert_eq!((stage, action), (OpenStage::SelectingNamespace, OpenAction::UseNamespace));
    let (stage, action) = advance_open(stage, true, true);
    assert_eq!((stage, action), (OpenStage::SelectingDatabase, OpenAction::UseDatabase));
    let (stage, action) = advance_open(stage, true, true);
    assert_eq!((stage, action), (OpenStage::Installed, OpenAction::Install));
    assert_eq!(advance_open(stage, true, true), (OpenStage::Installed, OpenAction::Nothing));
}

#[test]
fn open_without_sign_in_passes_over_it() {
    let (stage, _) = begin_open();
    let (stage, action) = advance_open(stage, false, true);
    assert_eq!((stage, action), (OpenStage::SelectingNamespace, OpenAction::UseNamespace));
}

#[test]
fn any_failed_call_abandons_the_open() {
    for stage in [
        OpenStage::Connecting,
        OpenStage::SigningIn,
        OpenStage::SelectingNamespace,
        OpenStage::SelectingDatabase,
    ] {
        assert_eq!(advance_open(stage, true, false), (OpenStage::Aborted, OpenAction::Abandon));
    }
    assert_eq!(
        advance_open(OpenStage::Aborted, true, true),
        (OpenStage::Aborted, OpenAction::Nothing)
    );
}

#[test]
fn failure_names_the_call_that_failed() {
    let message = || "refused".to_string();
    assert!(matches!(failure_at(OpenStage::Connecting, message()), Some(ConnectionError::Connect(m)) if m == "refused"));
    assert!(matches!(failure_at(OpenStage::SigningIn, message()), Some(ConnectionError::SignIn(m)) if m == "refused"));
    assert!(matches!(failure_at(OpenStage::SelectingNamespace, message()), Some(ConnectionError::UseNamespace(m)) if m == "refused"));
    assert!(matches!(failure_at(OpenStage::SelectingDatabase, message()), Some(ConnectionError::UseDatabase(m)) if m == "refused"));
    assert!(failure_at(OpenStage::Installed, message()).is_none());
    assert!(failure_at(OpenStage::Aborted, message()).is_none());
}

#[test]
fn errors_are_described_by_their_message() {
    assert_eq!(ConnectionError::Connect("a".to_string()).describe(), "a");
    assert_eq!(ConnectionError::SignIn("b".to_string()).describe(), "b");
    assert_eq!(ConnectionError::UseNamespace("c".to_string()).describe(), "c");
    assert_eq!(ConnectionError::UseDatabase("d".to_string()).describe(), "d");
}
