use base64::Engine;
use sone::defaults;
use sone::encoding::decode_url_text;
use sone::settings::{or_default, AuthMethod, ProxySettings, ProxyType, Settings};
use sone::state::{needs_encrypting, startup, startup_discord, startup_proxy, AppState, NO_DATA};
use sone::text;
use sone::tidal_report::queue::OutboxFile;

#[test]
fn white_space_is_that_of_unicode() {
    for code in 0..=0x10ffffu32 {
        if let Some(c) = char::from_u32(code) {
            assert_eq!(text::is_whitespace(c), c.is_whitespace(), "{code:x}");
        }
    }
}

#[test]
fn trimming_and_finding_work_as_in_std() {
    for s in ["", " ", "a", " \u{3000}a b\t\n", "\u{85}x"] {
        assert_eq!(text::trimmed(s), s.trim());
        assert_eq!(text::is_empty(s), s.is_empty());
    }
    for (hay, needle) in [("abc", "bc"), ("abc", ""), ("", "a"), ("aab", "ab"), ("a", "ab")] {
        assert_eq!(text::contains(hay, needle), hay.contains(needle));
    }
    assert!(text::same_text("\u{e9}", "\u{e9}"));
    assert!(!text::same_text("a", "b"));
    assert_eq!(text::join("a", "b"), "ab");
    assert!(text::lowers_to("ALBum", "album"));
    assert!(!text::lowers_to("albums", "album"));
}

#[test]
fn numerals_are_those_of_std() {
    for n in [0u64, 9, 10, 12345, u64::MAX] {
        assert_eq!(text::decimal_text(n), n.to_string());
        assert_eq!(text::parse_u64(&n.to_string()), Some(n));
        assert_eq!(text::hex_text(n, 16), format!("{n:016x}"));
    }
    for n in [0i64, -1, i64::MIN, i64::MAX] {
        assert_eq!(text::signed_decimal_text(n), n.to_string());
    }
    for s in ["", "+1", "-1", "1a", "18446744073709551616", "007"] {
        assert_eq!(text::parse_u64(s), s.parse::<u64>().ok());
    }
}

#[test]
fn base64_is_read_padded_or_not() {
    for bytes in [&b""[..], b"f", b"fo", b"foo", b"\xff\xfe\xfd", b"any carnal pleas"] {
        let bare = base64::engine::general_purpose::URL_SAFE_NO_PAD.encode(bytes);
        let padded = base64::engine::general_purpose::URL_SAFE.encode(bytes);
        assert_eq!(decode_url_text(&bare).as_deref(), Some(bytes));
        assert_eq!(decode_url_text(&padded).as_deref(), Some(bytes));
    }
    for bad in ["Z", "Zh", "Zg=", "+/+/", "Zg==Zg", "Z g"] {
        assert_eq!(decode_url_text(bad), None, "{bad}");
    }
}

#[test]
fn defaults_are_those_of_a_fresh_install() {
    assert!(defaults::yes());
    assert_eq!(f32::from_bits(defaults::volume()), 1.0);
    assert!(!defaults::mcp_enabled());
    assert_eq!(defaults::mcp_port(), 5577);
    assert!(!defaults::overlay_enabled());
    assert_eq!(defaults::overlay_port(), 5578);
    assert_eq!(defaults::overlay_host(), "127.0.0.1");
    assert_eq!(defaults::max_quality(), "HI_RES_LOSSLESS");
    let s = or_default(None);
    assert_eq!(f32::from_bits(s.volume), 1.0);
    assert!(s.titlebar_migration_v1);
    assert!(s.gapless);
    assert!(s.discord_rpc);
    assert!(!s.report_plays);
    assert_eq!(s.auth_method, AuthMethod::default());
    assert_eq!(s.proxy.proxy_type, ProxyType::default());
    assert_eq!(s.mcp_port, 5577);
    assert_eq!(s.overlay_host, "127.0.0.1");
}

#[test]
fn the_titlebar_is_migrated_once() {
    let mut s = Settings::default();
    s.titlebar_migration_v1 = false;
    s.decorations = true;
    assert!(s.migrate_titlebar());
    assert!(!s.decorations);
    s.decorations = true;
    assert!(!s.migrate_titlebar());
    assert!(s.decorations);
    s.remember_track(5);
    assert_eq!(s.last_track_id, Some(5));
    s.remember_volume(0.5f32.to_bits());
    assert_eq!(f32::from_bits(s.volume), 0.5);
}

#[test]
fn the_state_starts_from_the_saved_settings() {
    let state = AppState::new(&None, None);
    assert!(state.gapless);
    assert!(!state.minimize_to_tray);
    assert_eq!(state.max_quality, "HI_RES_LOSSLESS");
    assert!(!state.tidal_reporter.enabled());
    assert!(f64::from_bits(state.last_replay_gain).is_nan());
    assert_eq!(NO_DATA, f64::NAN.to_bits());
    let mut s = Settings::default();
    s.gapless = false;
    s.minimize_to_tray = true;
    s.exclusive_device = Some("hw:1".into());
    s.bit_perfect = true;
    s.max_quality = "HIGH".into();
    s.report_plays = true;
    let state = AppState::new(&Some(s), None);
    assert!(!state.gapless);
    assert!(state.minimize_to_tray);
    assert_eq!(state.max_quality, "HIGH");
    assert!(state.tidal_reporter.enabled());
    let audio = state.startup_audio();
    assert_eq!(audio.exclusive, Some((false, Some("hw:1".to_string()))));
    assert!(audio.bit_perfect);
    assert!(!audio.gapless);
    assert_eq!(AppState::new(&None, None).startup_audio().exclusive, None);
}

#[test]
fn services_start_from_the_saved_settings() {
    assert_eq!(startup_discord(&None), (String::new(), true));
    let mut s = Settings::default();
    s.discord_rpc = false;
    s.discord_status_text = "hi".into();
    s.proxy = ProxySettings {
        enabled: true,
        proxy_type: ProxyType::Socks5,
        host: "h".into(),
        port: 9,
        username: Some("u".into()),
        password: None,
    };
    let saved = Some(s);
    assert_eq!(startup_discord(&saved), ("hi".to_string(), false));
    let proxy = startup_proxy(&saved);
    assert!(proxy.enabled);
    assert_eq!(proxy.proxy_type, ProxyType::Socks5);
    assert_eq!(proxy.username.as_deref(), Some("u"));
    assert!(!startup_proxy(&None).enabled);
    assert!(needs_encrypting(Some(false), &saved));
    assert!(!needs_encrypting(Some(true), &saved));
    assert!(!needs_encrypting(None, &saved));
    assert!(!needs_encrypting(Some(false), &None));
}

#[test]
fn a_run_starts_from_the_migrated_settings() {
    let mut s = Settings::default();
    s.titlebar_migration_v1 = false;
    s.decorations = true;
    s.minimize_to_tray = true;
    s.report_plays = true;
    s.discord_status_text = "hi".into();
    let bytes = br#"[{"body":"b","attempts":1,"queued_at":2}]"#.to_vec();
    let outbox = OutboxFile { bytes, entries: None };
    let started = startup(Some(s), Some(true), Some(outbox));
    assert!(started.store);
    assert!(!started.state.decorations);
    assert!(started.state.minimize_to_tray);
    assert_eq!(started.state.tidal_reporter.queue_size(), 1);
    assert_eq!(started.discord, ("hi".to_string(), true));
    let s = started.settings.unwrap();
    assert!(s.titlebar_migration_v1);
    assert!(!s.decorations);
    // Already migrated: stored again only where the file was not encrypted.
    let started = startup(Some(s), Some(true), None);
    assert!(!started.store);
    let started = startup(started.settings, Some(false), None);
    assert!(started.store);
    let started = startup(started.settings, None, None);
    assert!(!started.store);
    let started = startup(None, Some(false), None);
    assert!(!started.store);
    assert!(started.settings.is_none());
    assert!(started.state.gapless);
    assert!(!started.proxy.enabled);
}

#[test]
fn an_advanced_track_stores_its_gains() {
    let mut state = AppState::new(&None, None);
    state.on_track_advanced(r#"{"trackId":1,"qid":"q","replayGain":-6.5,"peakAmplitude":1}"#);
    assert_eq!(f64::from_bits(state.last_replay_gain), -6.5);
    assert_eq!(f64::from_bits(state.last_peak_amplitude), 1.0);
    state.on_track_advanced(r#"{"replayGain":null,"peakAmplitude":0.25}"#);
    assert!(f64::from_bits(state.last_replay_gain).is_nan());
    assert_eq!(f64::from_bits(state.last_peak_amplitude), 0.25);
    for payload in ["", "not json", "[]", "{}", r#"{"replayGain":"x"}"#] {
        state.store_gains(0, 0);
        state.on_track_advanced(payload);
        assert_eq!(state.last_replay_gain, NO_DATA, "{payload}");
        assert_eq!(state.last_peak_amplitude, NO_DATA, "{payload}");
    }
}

#[test]
fn state_files_read_back() {
    for content in ["", "{\"a\":1}", "\u{e9}\u{1f3b5}"] {
        let plain = AppState::write_state_file(content);
        assert_eq!(plain, content.as_bytes());
        assert_eq!(AppState::read_state_file(Some(plain)).as_deref(), Some(content));
    }
    assert_eq!(AppState::read_state_file(None), None);
    assert_eq!(AppState::read_state_file(Some(vec![0xff])), None);
    assert_eq!(AppState::read_state_file(Some(vec![0xc3])), None);
}
