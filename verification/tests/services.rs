use sone::clock::Moment;
use sone::commands::scrobble::{
    complete_audioscrobbler_auth, connect_lastfm, connect_librefm, connect_listenbrainz,
    disconnect_provider, keep_session, notify_track_started, saved_providers, SavedProvider,
    ScrobbleConfig, ServiceKeys, TrackStartedPayload,
};
use sone::error::SoneError;
use sone::settings::{LastfmCredentials, ListenBrainzCredentials, ScrobbleSettings, Settings};
use sone::tidal_report::reporter::TidalReporter;

fn keys(name: &str) -> ServiceKeys {
    ServiceKeys {
        has_stream_keys: true,
        stream_key_a: format!("{name}-key"),
        stream_key_b: format!("{name}-secret"),
    }
}

fn config() -> ScrobbleConfig {
    ScrobbleConfig {
        lastfm: keys("last"),
        librefm: keys("libre"),
        librefm_api_url: "https://libre/api".into(),
    }
}

fn creds(name: &str) -> LastfmCredentials {
    LastfmCredentials { session_key: format!("{name}-session"), username: name.into() }
}

fn payload(kind: Option<&str>, id: Option<&str>) -> TrackStartedPayload {
    TrackStartedPayload {
        artist: "a, b".into(),
        artist_primary: "a".into(),
        title: "t".into(),
        album: Some("al".into()),
        album_artist: None,
        duration_secs: 180,
        track_number: Some(2),
        chosen_by_user: true,
        isrc: Some("isrc".into()),
        track_id: Some(11),
        source_type: kind.map(|s| s.to_string()),
        source_id: id.map(|s| s.to_string()),
    }
}

#[test]
fn a_started_track_is_told_to_everyone() {
    let mut r = TidalReporter::new(None, true);
    let now = Moment { wall_ms: 5, tick_ns: 0 };
    let (track, report) =
        notify_track_started(&mut r, payload(Some("album"), Some("x")), 1_700_000_000, now);
    assert!(report.is_none());
    assert_eq!(track.track, "t");
    assert_eq!(track.artist, "a, b");
    assert_eq!(track.artist_primary, "a");
    assert_eq!(track.timestamp, 1_700_000_000);
    assert_eq!(track.track_id, Some(11));
    assert_eq!(track.recording_mbid, None);
    assert!(track.artist_mbids.is_empty());
    let session = r.current.as_ref().unwrap();
    assert_eq!(session.duration_secs, 180);
    assert_eq!(session.source.as_ref().unwrap().1, "x");
    // A container needs both its kind and its id.
    notify_track_started(&mut r, payload(Some("album"), None), 0, now);
    assert!(r.current.as_ref().unwrap().source.is_none());
    let later = Moment { wall_ms: 5, tick_ns: 31_000_000_000 };
    let (_, report) = notify_track_started(&mut r, payload(None, Some("x")), 0, later);
    assert_eq!(report.unwrap().requested_product_id, 11);
}

#[test]
fn services_need_their_keys() {
    let c = config();
    let e = connect_lastfm(&c).unwrap();
    assert_eq!(e.name, "lastfm");
    assert_eq!(e.api_url, "https://ws.audioscrobbler.com/2.0/");
    assert_eq!(e.auth_base_url, "https://www.last.fm/api/auth/");
    assert_eq!(e.api_key, "last-key");
    assert_eq!(e.api_secret, "last-secret");
    let e = connect_librefm(&c).unwrap();
    assert_eq!(e.name, "librefm");
    assert_eq!(e.api_url, "https://libre/api");
    assert_eq!(e.auth_base_url, "https://libre.fm/api/auth/");
    assert_eq!(complete_audioscrobbler_auth("lastfm", &c).unwrap().api_key, "last-key");
    assert_eq!(complete_audioscrobbler_auth("librefm", &c).unwrap().api_key, "libre-key");
}

fn message<T>(result: Result<T, SoneError>) -> String {
    match result {
        Err(SoneError::Scrobble(message)) => message,
        Err(other) => panic!("{other:?}"),
        Ok(_) => panic!("no error"),
    }
}

#[test]
fn services_without_keys_are_refused() {
    let mut c = config();
    c.lastfm.has_stream_keys = false;
    c.librefm.has_stream_keys = false;
    assert_eq!(message(connect_lastfm(&c)), "Last.fm not configured");
    assert_eq!(message(connect_librefm(&c)), "Libre.fm not configured");
    assert_eq!(message(complete_audioscrobbler_auth("lastfm", &c)), "Last.fm not configured");
    assert_eq!(message(complete_audioscrobbler_auth("librefm", &c)), "Libre.fm not configured");
    assert_eq!(message(complete_audioscrobbler_auth("Lastfm", &c)), "Unknown provider: Lastfm");
}

#[test]
fn sessions_are_kept_under_their_own_name() {
    assert!(keep_session(None, "lastfm", "k".into(), "u".into()).is_none());
    let s = keep_session(Some(Settings::default()), "lastfm", "k".into(), "u".into()).unwrap();
    assert_eq!(s.scrobble.lastfm.as_ref().unwrap().session_key, "k");
    assert!(s.scrobble.librefm.is_none());
    let s = keep_session(Some(s), "librefm", "k2".into(), "u2".into()).unwrap();
    assert_eq!(s.scrobble.librefm.as_ref().unwrap().username, "u2");
    assert_eq!(s.scrobble.lastfm.as_ref().unwrap().username, "u");
    let s = keep_session(Some(s), "other", "k3".into(), "u3".into()).unwrap();
    assert_eq!(s.scrobble.lastfm.as_ref().unwrap().username, "u");
    let s = connect_listenbrainz(Some(s), "tok".into(), "lb".into()).unwrap();
    assert_eq!(s.scrobble.listenbrainz.as_ref().unwrap().token, "tok");
    assert!(connect_listenbrainz(None, "tok".into(), "lb".into()).is_none());
}

#[test]
fn disconnecting_forgets_one_service() {
    let mut s = Settings::default();
    s.scrobble = ScrobbleSettings {
        lastfm: Some(creds("l")),
        librefm: Some(creds("r")),
        listenbrainz: Some(ListenBrainzCredentials { token: "t".into(), username: "b".into() }),
    };
    let s = disconnect_provider(Some(s), "lastfm").unwrap().unwrap();
    assert!(s.scrobble.lastfm.is_none());
    assert!(s.scrobble.librefm.is_some());
    let s = disconnect_provider(Some(s), "listenbrainz").unwrap().unwrap();
    assert!(s.scrobble.listenbrainz.is_none());
    let s = disconnect_provider(Some(s), "librefm").unwrap().unwrap();
    assert!(s.scrobble.librefm.is_none());
    assert_eq!(message(disconnect_provider(Some(s), "spotify")), "unknown provider: spotify");
    // Without settings there is nothing to clear, and no error.
    assert!(disconnect_provider(None, "spotify").unwrap().is_none());
}

#[test]
fn saved_services_start_up_in_order() {
    let all = ScrobbleSettings {
        lastfm: Some(creds("l")),
        librefm: Some(creds("r")),
        listenbrainz: Some(ListenBrainzCredentials { token: "t".into(), username: "b".into() }),
    };
    let started = saved_providers(&all, &config());
    assert_eq!(started.len(), 3);
    match &started[0] {
        SavedProvider::Audioscrobbler { endpoint, session_key, username } => {
            assert_eq!(endpoint.name, "lastfm");
            assert_eq!(session_key, "l-session");
            assert_eq!(username, "l");
        }
        other => panic!("{other:?}"),
    }
    match &started[1] {
        SavedProvider::Audioscrobbler { endpoint, .. } => assert_eq!(endpoint.name, "librefm"),
        other => panic!("{other:?}"),
    }
    assert!(matches!(&started[2], SavedProvider::ListenBrainz { token, .. } if token == "t"));
    let mut c = config();
    c.lastfm.has_stream_keys = false;
    let started = saved_providers(&all, &c);
    assert_eq!(started.len(), 2);
    assert!(saved_providers(&ScrobbleSettings::default(), &c).is_empty());
}

#[test]
fn credentials_default_to_nothing() {
    assert_eq!(LastfmCredentials::default().session_key, "");
    assert_eq!(LastfmCredentials::default().username, "");
    assert_eq!(ListenBrainzCredentials::default().token, "");
    assert_eq!(creds("x").clone().session_key, "x-session");
}
