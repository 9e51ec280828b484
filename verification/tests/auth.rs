use sone::commands::auth::{
    are_embedded_defaults, are_embedded_pkce_defaults, build_pkce_params, complete_pkce_auth,
    complete_pkce_browser_login, consume_legacy_auth_notice, finish_embedded_pkce,
    get_default_credentials, get_saved_credentials, greet, has_pkce_defaults, import_session,
    imported_settings, load_saved_auth, login_event, logout, logout_session, logout_steps, pkce_params_from, poll_device_auth,
    refresh_tidal_auth, resolve_credentials, restores_discord, start_pkce_auth,
    start_pkce_browser_login, start_pkce_login_window, verified_tokens, ClientSession, EmbeddedConfig,
    ImportPlan, LoginStep, LogoutStep, PkceSlot, UrlParts, LEGACY_AUTH_NOTICE_LIMIT, PKCE_REDIRECT_URI,
};
use sone::commands::token_data::{extract_form_value, extract_json_value, parse_token_data};
use sone::error::SoneError;
use sone::settings::{AuthMethod, AuthTokens, LastfmCredentials, Settings};

fn config() -> EmbeddedConfig {
    EmbeddedConfig {
        has_stream_keys: true,
        stream_key_a: "dev-id".into(),
        stream_key_b: "dev-secret".into(),
        has_pkce_keys: true,
        stream_key_c: "pkce-id".into(),
        stream_key_d: "pkce-secret".into(),
    }
}

fn tokens() -> AuthTokens {
    AuthTokens {
        access_token: "acc".into(),
        refresh_token: "ref".into(),
        expires_in: 3600,
        token_type: "Bearer".into(),
        user_id: Some(9),
    }
}

fn custom() -> Settings {
    let mut s = Settings::default();
    s.client_id = "my-id".into();
    s.client_secret = "my-secret".into();
    s
}

fn pair(a: &str, b: &str) -> (String, String) {
    (a.into(), b.into())
}

#[test]
fn form_values_end_at_separators() {
    assert_eq!(extract_form_value("client_id=ab&x=1", "client_id").as_deref(), Some("ab"));
    assert_eq!(extract_form_value("'client_id=ab'", "client_id").as_deref(), Some("ab"));
    assert_eq!(extract_form_value("client_id=ab\u{a0}cd", "client_id").as_deref(), Some("ab"));
    assert_eq!(extract_form_value("client_id=\u{e9}t\u{e9}", "client_id").as_deref(), Some("\u{e9}t\u{e9}"));
    assert_eq!(extract_form_value("client_id=&client_id=x", "client_id"), None);
    assert_eq!(extract_form_value("client_id: ab", "client_id"), None);
    assert_eq!(extract_form_value("", "client_id"), None);
}

#[test]
fn json_values_are_found_in_either_quotes() {
    assert_eq!(extract_json_value(r#"{"key": "v"}"#, "key").as_deref(), Some("v"));
    assert_eq!(extract_json_value("{\"key\" \t: \u{a0}\"v w\"}", "key").as_deref(), Some("v w"));
    assert_eq!(extract_json_value("{'key' = 'v'}", "key").as_deref(), Some("v"));
    assert_eq!(extract_json_value("\"key\"\n:\n'v'", "key").as_deref(), Some("v"));
    // Without a separator, or with an empty value, the other quotes are tried.
    assert_eq!(extract_json_value(r#""key" 'key':'w'"#, "key").as_deref(), Some("w"));
    assert_eq!(extract_json_value(r#""key":"", 'key':'w'"#, "key").as_deref(), Some("w"));
    assert_eq!(extract_json_value(r#"{"key": "open"#, "key"), None);
    assert_eq!(extract_json_value(r#"{"key": 5}"#, "key"), None);
    assert_eq!(extract_json_value(r#"{"key"}"#, "key"), None);
}

#[test]
fn pasted_forms_and_json_are_parsed() {
    let t = parse_token_data("  client_id=cid&client_secret=sec&refresh_token=rt \n".into()).unwrap();
    assert_eq!(t.client_id.as_deref(), Some("cid"));
    assert_eq!(t.client_secret.as_deref(), Some("sec"));
    assert_eq!(t.refresh_token.as_deref(), Some("rt"));
    assert_eq!(t.access_token, None);
    let t = parse_token_data(r#"{"access_token":"at","client_id":"cid"}"#.into()).unwrap();
    assert_eq!(t.access_token.as_deref(), Some("at"));
    assert_eq!(t.client_id.as_deref(), Some("cid"));
    // The form wins over the JSON.
    let t = parse_token_data(r#"client_id=form {"client_id":"json"}"#.into()).unwrap();
    assert_eq!(t.client_id.as_deref(), Some("form"));
}

#[test]
fn a_text_without_tokens_is_an_error() {
    for text in ["", "hello", "client_secret=only", "access_token=form"] {
        match parse_token_data(text.into()) {
            Err(SoneError::Parse(message)) => assert_eq!(
                message,
                "Could not find any credentials or tokens in the pasted text."
            ),
            other => panic!("{other:?}"),
        }
    }
}

#[test]
fn credentials_fall_back_to_the_matching_pair() {
    let c = config();
    assert_eq!(resolve_credentials(&custom(), &c), pair("my-id", "my-secret"));
    let mut s = Settings::default();
    assert_eq!(resolve_credentials(&s, &c), pair("dev-id", "dev-secret"));
    s.auth_method = AuthMethod::Pkce;
    assert_eq!(resolve_credentials(&s, &c), pair("pkce-id", "pkce-secret"));
    let mut none = config();
    none.has_pkce_keys = false;
    assert_eq!(resolve_credentials(&s, &none), pair("dev-id", "dev-secret"));
    assert!(are_embedded_defaults("dev-id", "dev-secret", &c));
    assert!(!are_embedded_defaults("dev-id", "other", &c));
    assert!(are_embedded_pkce_defaults("pkce-id", "pkce-secret", &c));
    assert!(!are_embedded_pkce_defaults("pkce-id", "pkce-secret", &none));
}

#[test]
fn embedded_credentials_are_never_shown() {
    let c = config();
    assert_eq!(get_saved_credentials(&Some(custom()), &c), pair("my-id", "my-secret"));
    assert_eq!(get_saved_credentials(&None, &c), pair("", ""));
    let mut s = custom();
    s.client_id = "pkce-id".into();
    s.client_secret = "pkce-secret".into();
    assert_eq!(get_saved_credentials(&Some(s), &c), pair("", ""));
    assert_eq!(get_default_credentials(&c), pair("dev-id", "dev-secret"));
    let mut none = config();
    none.has_stream_keys = false;
    assert_eq!(get_default_credentials(&none), pair("", ""));
    assert!(has_pkce_defaults(&c));
}

#[test]
fn a_greeting_names_the_user() {
    assert_eq!(greet("Ada"), "Hello, Ada! You've been greeted from Rust!");
}

#[test]
fn saved_sessions_are_restored_with_their_credentials() {
    assert!(load_saved_auth(&None, &config()).is_none());
    assert!(load_saved_auth(&Some(Settings::default()), &config()).is_none());
    let mut s = custom();
    s.auth_tokens = Some(tokens());
    let saved = load_saved_auth(&Some(s), &config()).unwrap();
    assert_eq!(saved.tokens.access_token, "acc");
    assert_eq!(saved.client_id, "my-id");
    assert_eq!(saved.client_secret, "my-secret");
}

#[test]
fn an_import_needs_a_client_and_a_refresh_token() {
    for (id, refresh) in [("", "r"), ("c", ""), ("", "")] {
        match import_session(id, refresh.into(), Some("at".into())) {
            Err(SoneError::NotConfigured(m)) => {
                assert_eq!(m, "Client ID and refresh token are required")
            }
            other => panic!("{other:?}"),
        }
    }
}

#[test]
fn an_import_uses_the_access_token_if_there_is_one() {
    match import_session("c", "r".into(), Some("at".into())).unwrap() {
        ImportPlan::Verify(t) => {
            assert_eq!(t.access_token, "at");
            assert_eq!(t.refresh_token, "r");
            assert_eq!(t.expires_in, 86400);
            assert_eq!(t.token_type, "Bearer");
            assert_eq!(t.user_id, None);
            assert_eq!(verified_tokens(t, Some(4)).user_id, Some(4));
        }
        other => panic!("{other:?}"),
    }
    for access in [None, Some(String::new())] {
        match import_session("c", "r".into(), access).unwrap() {
            ImportPlan::Refresh(t) => {
                assert_eq!(t.access_token, "");
                assert_eq!(t.expires_in, 0);
            }
            other => panic!("{other:?}"),
        }
    }
}

#[test]
fn imports_keep_only_the_users_own_credentials() {
    let s = imported_settings(None, &tokens(), "a".into(), "b".into(), &config());
    assert_eq!(s.client_id, "a");
    assert_eq!(s.auth_tokens.unwrap().access_token, "acc");
    let s = imported_settings(
        Some(custom()),
        &tokens(),
        "dev-id".into(),
        "dev-secret".into(),
        &config(),
    );
    assert_eq!(s.client_id, "my-id");
}

#[test]
fn device_logins_are_saved() {
    let c = config();
    assert!(poll_device_auth(&None, Some(custom()), "a".into(), "b".into(), &c).is_none());
    let mut before = custom();
    before.auth_method = AuthMethod::Pkce;
    let s = poll_device_auth(&Some(tokens()), Some(before), "a".into(), "b".into(), &c).unwrap();
    assert_eq!(s.auth_method, AuthMethod::LoginCode);
    assert_eq!(resolve_credentials(&s, &c), pair("a", "b"));
    let s = poll_device_auth(
        &Some(tokens()),
        Some(custom()),
        "dev-id".into(),
        "dev-secret".into(),
        &c,
    )
    .unwrap();
    assert_eq!(s.client_id, "");
    assert_eq!(resolve_credentials(&s, &c), pair("dev-id", "dev-secret"));
}

#[test]
fn pkce_logins_are_saved() {
    let c = config();
    let mut before = custom();
    before.legacy_auth_notice_count = 2;
    before.max_quality = "LOSSLESS".into();
    let s = complete_pkce_auth(Some(before), &tokens(), "a".into(), "b".into(), &c);
    assert_eq!(s.auth_method, AuthMethod::Pkce);
    assert_eq!(resolve_credentials(&s, &c), pair("a", "b"));
    assert_eq!(s.legacy_auth_notice_count, 2);
    assert_eq!(s.max_quality, "LOSSLESS");
    let s = complete_pkce_auth(Some(s), &tokens(), "pkce-id".into(), "pkce-secret".into(), &c);
    assert_eq!(s.client_id, "");
    assert_eq!(resolve_credentials(&s, &c), pair("pkce-id", "pkce-secret"));
    let s = complete_pkce_auth(None, &tokens(), "dev-id".into(), "dev-secret".into(), &c);
    assert_eq!(s.client_id, "");
    let s = finish_embedded_pkce(Some(custom()), &tokens());
    assert_eq!(resolve_credentials(&s, &c), pair("pkce-id", "pkce-secret"));
}

#[test]
fn a_refresh_changes_only_the_tokens() {
    let mut old = custom();
    old.report_plays = true;
    let s = refresh_tidal_auth(Some(old), &tokens());
    assert_eq!(s.auth_tokens.unwrap().refresh_token, "ref");
    assert_eq!(s.client_id, "my-id");
    assert!(s.report_plays);
    assert!(refresh_tidal_auth(None, &tokens()).gapless);
}

#[test]
fn a_logout_keeps_the_rest() {
    assert!(logout(None).is_none());
    let mut s = custom();
    s.auth_tokens = Some(tokens());
    s.last_track_id = Some(4);
    s.scrobble.lastfm = Some(LastfmCredentials { session_key: "k".into(), username: "u".into() });
    s.mcp_token = "mcp".into();
    let s = logout(Some(s)).unwrap();
    assert!(s.auth_tokens.is_none());
    assert!(s.last_track_id.is_none());
    assert!(s.scrobble.lastfm.is_none());
    assert_eq!(s.client_id, "my-id");
    assert_eq!(s.mcp_token, "mcp");
}

#[test]
fn a_logout_purges_before_it_stops() {
    let steps = logout_steps();
    let at = |step| steps.iter().position(|s| *s == step).unwrap();
    assert!(at(LogoutStep::PurgeScrobblers) < at(LogoutStep::StopPlayback));
    assert!(at(LogoutStep::PurgeReports) < at(LogoutStep::StopPlayback));
    assert_eq!(steps.len(), 9);
    assert_eq!(steps[8], LogoutStep::ClearCache);
}

#[test]
fn a_logout_ends_the_session_and_keeps_the_credentials() {
    let ended = logout_session(ClientSession {
        tokens: Some(tokens()),
        country_code: "DE".into(),
        client_id: "my-id".into(),
        client_secret: "my-secret".into(),
    });
    assert!(ended.tokens.is_none());
    assert_eq!(ended.country_code, "US");
    assert_eq!(ended.client_id, "my-id");
    assert_eq!(ended.client_secret, "my-secret");
}

#[test]
fn discord_comes_back_if_it_is_enabled() {
    assert!(!restores_discord(&None));
    let mut s = Settings::default();
    assert!(s.discord_rpc);
    s.discord_rpc = false;
    assert!(!restores_discord(&Some(s)));
    assert!(restores_discord(&Some(Settings::default())));
}

#[test]
fn the_legacy_notice_is_shown_five_times() {
    assert_eq!(LEGACY_AUTH_NOTICE_LIMIT, 5);
    assert!(consume_legacy_auth_notice(None).is_none());
    assert!(consume_legacy_auth_notice(Some(Settings::default())).is_none());
    let mut s = Settings::default();
    s.auth_tokens = Some(tokens());
    let mut shown = 0;
    let mut next = Some(s);
    while let Some(s) = consume_legacy_auth_notice(next) {
        shown += 1;
        assert_eq!(s.legacy_auth_notice_count, shown);
        next = Some(s);
    }
    assert_eq!(shown, 5);
    let mut s = Settings::default();
    s.auth_tokens = Some(tokens());
    s.auth_method = AuthMethod::Pkce;
    assert!(consume_legacy_auth_notice(Some(s)).is_none());
}

// The verifier and the challenge of RFC 7636, appendix B.
#[test]
fn pkce_params_match_the_published_example() {
    let bytes: [u8; 32] = [
        116, 24, 223, 180, 151, 153, 224, 37, 79, 250, 96, 125, 216, 173, 187, 186, 22, 212, 37,
        77, 105, 214, 191, 240, 91, 88, 5, 88, 83, 132, 141, 121,
    ];
    let p = pkce_params_from("cid", &bytes, 0xabc);
    assert_eq!(p.code_verifier, "dBjftJeZ4CVP-mB92K27uhbUJU1p1r_wW1gFWFOEjXk");
    assert_eq!(p.client_unique_key, "0000000000000abc");
    assert_eq!(
        p.authorize_url,
        "https://login.tidal.com/authorize?response_type=code&redirect_uri=https%3A%2F%2Ftidal.com%2Fandroid%2Flogin%2Fauth&client_id=cid&lang=EN&appMode=android&client_unique_key=0000000000000abc&code_challenge=E9Melhoa2OwvFrEMTJguCHaoeK1t8URWbuGJSstw-cM&code_challenge_method=S256&restrict_signup=true"
    );
}

#[test]
fn pkce_params_are_random() {
    let a = build_pkce_params("cid");
    let b = build_pkce_params("cid");
    assert_ne!(a.code_verifier, b.code_verifier);
    assert_ne!(a.client_unique_key, b.client_unique_key);
    assert_eq!(a.code_verifier.len(), 43);
    assert_eq!(a.client_unique_key.len(), 16);
    assert!(a.authorize_url.contains(&a.client_unique_key));
}

#[test]
fn a_login_needs_a_client() {
    match start_pkce_auth(String::new()) {
        Err(SoneError::NotConfigured(m)) => assert_eq!(m, "Client ID is required"),
        other => panic!("{other:?}"),
    }
    assert!(start_pkce_auth("mine".into()).unwrap().authorize_url.contains("&client_id=mine&"));
    let mut none = config();
    none.has_pkce_keys = false;
    match start_pkce_browser_login(&none) {
        Err(SoneError::NotConfigured(m)) => {
            assert_eq!(m, "PKCE credentials are not embedded in this build")
        }
        other => panic!("{other:?}"),
    }
    let url = start_pkce_browser_login(&config()).unwrap().authorize_url;
    assert!(url.contains("&client_id=pkce-id&"));
    let e = complete_pkce_browser_login("c".into(), "v".into(), "k".into(), &config());
    assert_eq!((e.client_id.as_str(), e.client_secret.as_str()), ("pkce-id", "pkce-secret"));
    assert_eq!(PKCE_REDIRECT_URI, "https://tidal.com/android/login/auth");
}

#[test]
fn a_login_window_brings_back_the_code() {
    let mut slot = PkceSlot::new();
    let url = start_pkce_login_window(&mut slot, &config()).unwrap();
    let step = slot.on_navigation(&url, &config());
    assert!(matches!(step, LoginStep::Browse));
    assert!(step.allows_page());
    let verifier = slot.pending.as_ref().unwrap().code_verifier.clone();
    let step = slot.on_navigation(
        "https://TIDAL.com/android/login/auth?state=x&code=a%20b%2Fc&code=second",
        &config(),
    );
    assert!(!step.allows_page());
    match step {
        LoginStep::Exchange(e) => {
            assert_eq!(e.code, "a b/c");
            assert_eq!(e.code_verifier, verifier);
            assert_eq!(e.client_id, "pkce-id");
        }
        other => panic!("{other:?}"),
    }
    assert!(!slot.on_pkce_window_closed());
}

#[test]
fn a_redirect_without_a_code_fails_and_is_shown() {
    let mut slot = PkceSlot::new();
    start_pkce_login_window(&mut slot, &config()).unwrap();
    let step = slot.on_navigation("https://tidal.com/android/login/auth?error=no", &config());
    assert!(matches!(step, LoginStep::Fail));
    assert!(step.allows_page());
    // What was parked is used up, so a code that comes later finds nothing.
    let step = slot.on_navigation("https://tidal.com/android/login/auth?code=c", &config());
    assert!(matches!(step, LoginStep::Fail));
    assert!(!slot.on_pkce_window_closed());
}

#[test]
fn other_pages_are_no_redirect() {
    let mut slot = PkceSlot::new();
    start_pkce_login_window(&mut slot, &config()).unwrap();
    for url in [
        "https://login.tidal.com/android/login/auth?code=c",
        "https://tidal.com/android/login/auth/?code=c",
        "about:blank",
        "no url",
    ] {
        assert!(matches!(slot.on_navigation(url, &config()), LoginStep::Browse));
    }
    assert!(slot.on_pkce_window_closed());
    assert!(!slot.on_pkce_window_closed());
}

#[test]
fn pages_are_judged_by_their_parts() {
    let mut slot = PkceSlot::new();
    let page = UrlParts {
        host: Some("tidal.com".into()),
        path: "/android/login/auth".into(),
        query: vec![("code".into(), "c".into())],
    };
    assert!(matches!(slot.on_page(&page, &config()), LoginStep::Fail));
    let nowhere = UrlParts { host: None, path: "/android/login/auth".into(), query: Vec::new() };
    assert!(matches!(slot.on_page(&nowhere, &config()), LoginStep::Browse));
}

#[test]
fn a_window_needs_embedded_credentials() {
    let mut slot = PkceSlot::new();
    let mut none = config();
    none.has_pkce_keys = false;
    assert!(start_pkce_login_window(&mut slot, &none).is_err());
    assert!(slot.pending.is_none());
}

#[test]
fn logins_end_in_an_event() {
    assert_eq!(login_event(&Ok(tokens())), ("pkce-login-success", None));
    assert_eq!(login_event(&Err("bad".into())), ("pkce-login-error", Some("bad".into())));
}
