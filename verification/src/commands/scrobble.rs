//! Scrobbling: which services are connected, and with which credentials.

use crate::clock::Moment;
use crate::error::SoneError;
use crate::settings::{
    LastfmCredentials, ListenBrainzCredentials, ScrobbleSettings, Settings,
};
use crate::text;
use crate::tidal_report::event::SessionEvent;
use crate::tidal_report::reporter::{self, TidalReporter};
use vstd::prelude::*;

verus! {

/// Where the user authorizes a service, and the token to come back with.
#[derive(Debug)]
pub struct AuthStartResponse {
    pub url: String,
    pub token: String,
}

/// A track that starts, as the frontend knows it.
#[derive(Debug)]
pub struct TrackStartedPayload {
    pub artist: String,
    pub artist_primary: String,
    pub title: String,
    pub album: Option<String>,
    pub album_artist: Option<String>,
    pub duration_secs: u32,
    pub track_number: Option<u32>,
    pub chosen_by_user: bool,
    pub isrc: Option<String>,
    pub track_id: Option<u64>,
    /// Container the play was started from (album, playlist, artist, mix), for TIDAL
    /// play-reporting attribution. Absent for radio and single-track plays.
    pub source_type: Option<String>,
    pub source_id: Option<String>,
}

/// A track for the scrobbling services.
#[derive(Debug)]
pub struct ScrobbleTrack {
    pub artist: String,
    pub track: String,
    pub album: Option<String>,
    pub album_artist: Option<String>,
    pub duration_secs: u32,
    pub track_number: Option<u32>,
    pub timestamp: i64,
    pub chosen_by_user: bool,
    pub isrc: Option<String>,
    pub track_id: Option<u64>,
    pub recording_mbid: Option<String>,
    pub artist_primary: String,
    pub artist_mbids: Vec<String>,
}

// ---------------------------------------------------------------------------
// A track starts
// ---------------------------------------------------------------------------

/// The container that a payload names: kind and id, both or none.
pub open spec fn source_in(payload: TrackStartedPayload) -> Option<(String, String)> {
    match (payload.source_type, payload.source_id) {
        (Some(kind), Some(id)) => Some((kind, id)),
        _ => None,
    }
}

/// `track` is the track of this payload, started at this time.
pub open spec fn is_track_of(
    track: ScrobbleTrack,
    payload: TrackStartedPayload,
    now_secs: u64,
) -> bool {
    &&& track.artist == payload.artist
    &&& track.track == payload.title
    &&& track.album == payload.album
    &&& track.album_artist == payload.album_artist
    &&& track.duration_secs == payload.duration_secs
    &&& track.track_number == payload.track_number
    &&& track.timestamp == now_secs as i64
    &&& track.chosen_by_user == payload.chosen_by_user
    &&& track.isrc == payload.isrc
    &&& track.track_id == payload.track_id
    &&& track.recording_mbid is None
    &&& track.artist_primary == payload.artist_primary
    &&& track.artist_mbids@.len() == 0
}

/// A track starts: the reporter follows it, and the scrobbling services are told.
/// Returns what they are told, and the report of the play that the track displaces.
pub fn notify_track_started(
    reporter: &mut TidalReporter,
    payload: TrackStartedPayload,
    now_secs: u64,
    now: Moment,
) -> (started: (ScrobbleTrack, Option<SessionEvent>))
    ensures
        is_track_of(started.0, payload, now_secs),
        started.0.artist == payload.artist,
        started.0.artist_primary == payload.artist_primary,
        started.0.track == payload.title,
        started.0.album == payload.album,
        started.0.album_artist == payload.album_artist,
        started.0.duration_secs == payload.duration_secs,
        started.0.track_number == payload.track_number,
        started.0.chosen_by_user == payload.chosen_by_user,
        started.0.isrc == payload.isrc,
        started.0.track_id == payload.track_id,
        started.0.timestamp == now_secs as i64,
        started.0.recording_mbid is None,
        started.0.artist_mbids@.len() == 0,
        !old(reporter).enabled ==> started.1 is None && *final(reporter) == *old(reporter),
        old(reporter).enabled ==> {
            &&& reporter::closes(old(reporter).current, false, now, started.1)
            &&& reporter::starts(
                old(reporter).pending_meta@,
                payload.track_id,
                payload.duration_secs,
                source_in(payload),
                now,
                final(reporter).current,
            )
            &&& final(reporter).pending_meta@ == match payload.track_id {
                Some(id) => old(reporter).pending_meta@.remove(id),
                None => old(reporter).pending_meta@,
            }
            &&& final(reporter).enabled == old(reporter).enabled
            &&& final(reporter).queue == old(reporter).queue
        },
        old(reporter).wf() ==> final(reporter).wf(),
{
    let source = match (payload.source_type, payload.source_id) {
        (Some(kind), Some(id)) => Some((kind, id)),
        _ => None,
    };
    #[verifier::truncate]
    let timestamp: i64 = now_secs as i64;
    let report = reporter.on_track_started(payload.track_id, payload.duration_secs, source, now);
    let track = ScrobbleTrack {
        artist: payload.artist,
        track: payload.title,
        album: payload.album,
        album_artist: payload.album_artist,
        duration_secs: payload.duration_secs,
        track_number: payload.track_number,
        timestamp,
        chosen_by_user: payload.chosen_by_user,
        isrc: payload.isrc,
        track_id: payload.track_id,
        recording_mbid: None,
        artist_primary: payload.artist_primary,
        artist_mbids: Vec::new(),
    };
    (track, report)
}

// ---------------------------------------------------------------------------
// Audioscrobbler services (Last.fm, Libre.fm)
// ---------------------------------------------------------------------------

/// The keys of a service that are compiled into the build; it may hold placeholders.
#[derive(Debug)]
pub struct ServiceKeys {
    pub has_stream_keys: bool,
    pub stream_key_a: String,
    pub stream_key_b: String,
}

/// What the build knows of the services.
#[derive(Debug)]
pub struct ScrobbleConfig {
    pub lastfm: ServiceKeys,
    pub librefm: ServiceKeys,
    pub librefm_api_url: String,
}

/// A service that speaks the Audioscrobbler protocol.
#[derive(Debug)]
pub struct Endpoint {
    pub name: &'static str,
    pub api_url: String,
    pub auth_base_url: &'static str,
    pub api_key: String,
    pub api_secret: String,
}

/// The service is Last.fm, with the keys of the build.
pub open spec fn is_lastfm(endpoint: Endpoint, config: ScrobbleConfig) -> bool {
    &&& endpoint.name@ == "lastfm"@
    &&& endpoint.api_url@ == "https://ws.audioscrobbler.com/2.0/"@
    &&& endpoint.auth_base_url@ == "https://www.last.fm/api/auth/"@
    &&& endpoint.api_key == config.lastfm.stream_key_a
    &&& endpoint.api_secret == config.lastfm.stream_key_b
}

/// The service is Libre.fm, with the keys of the build.
pub open spec fn is_librefm(endpoint: Endpoint, config: ScrobbleConfig) -> bool {
    &&& endpoint.name@ == "librefm"@
    &&& endpoint.api_url == config.librefm_api_url
    &&& endpoint.auth_base_url@ == "https://libre.fm/api/auth/"@
    &&& endpoint.api_key == config.librefm.stream_key_a
    &&& endpoint.api_secret == config.librefm.stream_key_b
}

/// The error says this of scrobbling.
pub open spec fn is_scrobble_error(error: SoneError, message: Seq<char>) -> bool {
    error matches SoneError::Scrobble(text) && text@ == message
}

/// The message for a build without Last.fm keys.
pub const LASTFM_MISSING: &'static str = "Last.fm not configured";

/// The message for a build without Libre.fm keys.
pub const LIBREFM_MISSING: &'static str = "Libre.fm not configured";

/// The service to ask for a request token of Last.fm.
pub fn connect_lastfm(config: &ScrobbleConfig) -> (endpoint: Result<Endpoint, SoneError>)
    ensures
        match endpoint {
            Ok(endpoint) => config.lastfm.has_stream_keys && is_lastfm(endpoint, *config),
            Err(error) => !config.lastfm.has_stream_keys && is_scrobble_error(
                error,
                LASTFM_MISSING@,
            ),
        },
        endpoint is Ok <==> config.lastfm.has_stream_keys,
        endpoint matches Ok(endpoint) ==> {
            &&& endpoint.name@ == "lastfm"@
            &&& endpoint.api_url@ == "https://ws.audioscrobbler.com/2.0/"@
            &&& endpoint.auth_base_url@ == "https://www.last.fm/api/auth/"@
            &&& endpoint.api_key@ == config.lastfm.stream_key_a@
            &&& endpoint.api_secret@ == config.lastfm.stream_key_b@
        },
{
    if !config.lastfm.has_stream_keys {
        return Err(SoneError::Scrobble(LASTFM_MISSING.to_string()));
    }
    Ok(
        Endpoint {
            name: "lastfm",
            api_url: "https://ws.audioscrobbler.com/2.0/".to_string(),
            auth_base_url: "https://www.last.fm/api/auth/",
            api_key: config.lastfm.stream_key_a.clone(),
            api_secret: config.lastfm.stream_key_b.clone(),
        },
    )
}

/// The service to ask for a request token of Libre.fm.
pub fn connect_librefm(config: &ScrobbleConfig) -> (endpoint: Result<Endpoint, SoneError>)
    ensures
        match endpoint {
            Ok(endpoint) => config.librefm.has_stream_keys && is_librefm(endpoint, *config),
            Err(error) => !config.librefm.has_stream_keys && is_scrobble_error(
                error,
                LIBREFM_MISSING@,
            ),
        },
        endpoint is Ok <==> config.librefm.has_stream_keys,
        endpoint matches Ok(endpoint) ==> {
            &&& endpoint.name@ == "librefm"@
            &&& endpoint.api_url@ == config.librefm_api_url@
            &&& endpoint.auth_base_url@ == "https://libre.fm/api/auth/"@
            &&& endpoint.api_key@ == config.librefm.stream_key_a@
            &&& endpoint.api_secret@ == config.librefm.stream_key_b@
        },
{
    if !config.librefm.has_stream_keys {
        return Err(SoneError::Scrobble(LIBREFM_MISSING.to_string()));
    }
    Ok(
        Endpoint {
            name: "librefm",
            api_url: config.librefm_api_url.clone(),
            auth_base_url: "https://libre.fm/api/auth/",
            api_key: config.librefm.stream_key_a.clone(),
            api_secret: config.librefm.stream_key_b.clone(),
        },
    )
}

/// The service to exchange an auth token at for a permanent session key.
pub fn complete_audioscrobbler_auth(provider_name: &str, config: &ScrobbleConfig) -> (endpoint:
    Result<Endpoint, SoneError>)
    ensures
        match endpoint {
            Ok(endpoint) => {
                ||| provider_name@ == "lastfm"@ && config.lastfm.has_stream_keys && is_lastfm(
                    endpoint,
                    *config,
                )
                ||| provider_name@ == "librefm"@ && config.librefm.has_stream_keys && is_librefm(
                    endpoint,
                    *config,
                )
            },
            Err(error) => if provider_name@ == "lastfm"@ {
                !config.lastfm.has_stream_keys && is_scrobble_error(error, LASTFM_MISSING@)
            } else if provider_name@ == "librefm"@ {
                !config.librefm.has_stream_keys && is_scrobble_error(error, LIBREFM_MISSING@)
            } else {
                is_scrobble_error(error, "Unknown provider: "@ + provider_name@)
            },
        },
        endpoint matches Ok(endpoint) ==> endpoint.name@ == provider_name@,
{
    if text::same_text(provider_name, "lastfm") {
        connect_lastfm(config)
    } else if text::same_text(provider_name, "librefm") {
        connect_librefm(config)
    } else {
        Err(SoneError::Scrobble(text::join("Unknown provider: ", provider_name)))
    }
}

// ---------------------------------------------------------------------------
// What is kept
// ---------------------------------------------------------------------------

/// The settings with other scrobbling settings.
pub open spec fn with_scrobble(settings: Settings, scrobble: ScrobbleSettings) -> Settings {
    Settings { scrobble, ..settings }
}

/// The settings once a session of an Audioscrobbler service is known: its session
/// key is kept, under its own name. Without settings nothing is kept, and a name
/// that is not known changes nothing.
pub fn keep_session(
    stored: Option<Settings>,
    provider_name: &str,
    session_key: String,
    username: String,
) -> (kept: Option<Settings>)
    ensures
        kept == match stored {
            Some(settings) => {
                let creds = LastfmCredentials { session_key, username };
                Some(
                    if provider_name@ == "lastfm"@ {
                        with_scrobble(
                            settings,
                            ScrobbleSettings { lastfm: Some(creds), ..settings.scrobble },
                        )
                    } else if provider_name@ == "librefm"@ {
                        with_scrobble(
                            settings,
                            ScrobbleSettings { librefm: Some(creds), ..settings.scrobble },
                        )
                    } else {
                        settings
                    },
                )
            },
            None => None,
        },
{
    match stored {
        Some(mut settings) => {
            let creds = LastfmCredentials { session_key, username };
            if text::same_text(provider_name, "lastfm") {
                settings.scrobble.lastfm = Some(creds);
            } else if text::same_text(provider_name, "librefm") {
                settings.scrobble.librefm = Some(creds);
            }
            Some(settings)
        },
        None => None,
    }
}

/// The settings once a ListenBrainz token is validated: it is kept with the name
/// that it belongs to. Without settings nothing is kept.
pub fn connect_listenbrainz(stored: Option<Settings>, token: String, username: String) -> (kept:
    Option<Settings>)
    ensures
        kept == match stored {
            Some(settings) => Some(
                with_scrobble(
                    settings,
                    ScrobbleSettings {
                        listenbrainz: Some(ListenBrainzCredentials { token, username }),
                        ..settings.scrobble
                    },
                ),
            ),
            None => None,
        },
{
    match stored {
        Some(mut settings) => {
            settings.scrobble.listenbrainz = Some(ListenBrainzCredentials { token, username });
            Some(settings)
        },
        None => None,
    }
}

/// The scrobbling settings without a service's credentials; `None` where the service
/// is not known.
pub open spec fn without_provider(scrobble: ScrobbleSettings, provider: Seq<char>) -> Option<
    ScrobbleSettings,
> {
    if provider == "lastfm"@ {
        Some(ScrobbleSettings { lastfm: None, ..scrobble })
    } else if provider == "listenbrainz"@ {
        Some(ScrobbleSettings { listenbrainz: None, ..scrobble })
    } else if provider == "librefm"@ {
        Some(ScrobbleSettings { librefm: None, ..scrobble })
    } else {
        None
    }
}

/// The settings without a service's credentials. A service that is not known is an
/// error, but only where there are settings to clear it from.
pub fn disconnect_provider(stored: Option<Settings>, provider: &str) -> (kept: Result<
    Option<Settings>,
    SoneError,
>)
    ensures
        match stored {
            Some(settings) => match without_provider(settings.scrobble, provider@) {
                Some(scrobble) => kept == Ok::<Option<Settings>, SoneError>(
                    Some(with_scrobble(settings, scrobble)),
                ),
                None => kept matches Err(error) && is_scrobble_error(
                    error,
                    "unknown provider: "@ + provider@,
                ),
            },
            None => kept == Ok::<Option<Settings>, SoneError>(None),
        },
{
    match stored {
        Some(mut settings) => {
            if text::same_text(provider, "lastfm") {
                settings.scrobble.lastfm = None;
            } else if text::same_text(provider, "listenbrainz") {
                settings.scrobble.listenbrainz = None;
            } else if text::same_text(provider, "librefm") {
                settings.scrobble.librefm = None;
            } else {
                return Err(SoneError::Scrobble(text::join("unknown provider: ", provider)));
            }
            Ok(Some(settings))
        },
        None => Ok(None),
    }
}

// ---------------------------------------------------------------------------
// At startup
// ---------------------------------------------------------------------------

/// A service that is connected at startup.
#[derive(Debug)]
pub enum SavedProvider {
    Audioscrobbler { endpoint: Endpoint, session_key: String, username: String },
    ListenBrainz { token: String, username: String },
}

/// The service is Last.fm, under these credentials.
pub open spec fn is_saved_lastfm(
    provider: SavedProvider,
    creds: LastfmCredentials,
    config: ScrobbleConfig,
) -> bool {
    &&& provider matches SavedProvider::Audioscrobbler { endpoint, session_key, username }
    &&& is_lastfm(endpoint, config)
    &&& session_key == creds.session_key
    &&& username == creds.username
}

/// The service is Libre.fm, under these credentials.
pub open spec fn is_saved_librefm(
    provider: SavedProvider,
    creds: LastfmCredentials,
    config: ScrobbleConfig,
) -> bool {
    &&& provider matches SavedProvider::Audioscrobbler { endpoint, session_key, username }
    &&& is_librefm(endpoint, config)
    &&& session_key == creds.session_key
    &&& username == creds.username
}

/// Last.fm starts up: it is connected, and the build has its keys.
pub open spec fn starts_lastfm(scrobble: ScrobbleSettings, config: ScrobbleConfig) -> bool {
    scrobble.lastfm is Some && config.lastfm.has_stream_keys
}

/// Libre.fm starts up: it is connected, and the build has its keys.
pub open spec fn starts_librefm(scrobble: ScrobbleSettings, config: ScrobbleConfig) -> bool {
    scrobble.librefm is Some && config.librefm.has_stream_keys
}

/// One where it holds, else none.
pub open spec fn one_if(holds: bool) -> int {
    if holds {
        1
    } else {
        0
    }
}

/// The services that the saved credentials connect at startup, in order: Last.fm,
/// Libre.fm, ListenBrainz. The first two need keys in the build.
pub fn saved_providers(scrobble: &ScrobbleSettings, config: &ScrobbleConfig) -> (providers: Vec<
    SavedProvider,
>)
    ensures
        ({
            let lastfm = starts_lastfm(*scrobble, *config);
            let librefm = starts_librefm(*scrobble, *config);
            let listenbrainz = scrobble.listenbrainz is Some;
            &&& providers@.len() == one_if(lastfm) + one_if(librefm) + one_if(listenbrainz)
            &&& lastfm ==> is_saved_lastfm(providers@[0], scrobble.lastfm->0, *config)
            &&& librefm ==> is_saved_librefm(
                providers@[one_if(lastfm)],
                scrobble.librefm->0,
                *config,
            )
            &&& listenbrainz ==> providers@.last() == (SavedProvider::ListenBrainz {
                token: scrobble.listenbrainz->0.token,
                username: scrobble.listenbrainz->0.username,
            })
        }),
{
    let mut providers: Vec<SavedProvider> = Vec::new();
    if let Some(creds) = &scrobble.lastfm {
        if let Ok(endpoint) = connect_lastfm(config) {
            let session_key = creds.session_key.clone();
            let username = creds.username.clone();
            providers.push(SavedProvider::Audioscrobbler { endpoint, session_key, username });
        }
    }
    if let Some(creds) = &scrobble.librefm {
        if let Ok(endpoint) = connect_librefm(config) {
            let session_key = creds.session_key.clone();
            let username = creds.username.clone();
            providers.push(SavedProvider::Audioscrobbler { endpoint, session_key, username });
        }
    }
    if let Some(creds) = &scrobble.listenbrainz {
        let token = creds.token.clone();
        let username = creds.username.clone();
        providers.push(SavedProvider::ListenBrainz { token, username });
    }
    providers
}

// ---------------------------------------------------------------------------
// Laws
// ---------------------------------------------------------------------------

/// Disconnecting a service that was just connected leaves the other services as they
/// were, and disconnecting it again changes nothing.
pub proof fn law_disconnect_undoes_connect(
    scrobble: ScrobbleSettings,
    lastfm: LastfmCredentials,
    librefm: LastfmCredentials,
    listenbrainz: ListenBrainzCredentials,
)
    ensures
        without_provider(
            ScrobbleSettings { lastfm: Some(lastfm), ..scrobble },
            "lastfm"@,
        ) == without_provider(scrobble, "lastfm"@),
        without_provider(
            ScrobbleSettings { librefm: Some(librefm), ..scrobble },
            "librefm"@,
        ) == without_provider(scrobble, "librefm"@),
        without_provider(
            ScrobbleSettings { listenbrainz: Some(listenbrainz), ..scrobble },
            "listenbrainz"@,
        ) == without_provider(scrobble, "listenbrainz"@),
        forall|name: Seq<char>|
            (#[trigger] without_provider(scrobble, name)) matches Some(rest)
                ==> without_provider(rest, name) == Some(rest),
{
    reveal_strlit("lastfm");
    reveal_strlit("librefm");
    reveal_strlit("listenbrainz");
    assert("lastfm"@.len() == 6 && "librefm"@.len() == 7 && "listenbrainz"@.len() == 12);
}

/// With nothing connected, no service starts up: a logout purges them all.
pub proof fn law_nothing_starts_up_after_logout(config: ScrobbleConfig)
    ensures
        !starts_lastfm(ScrobbleSettings::none(), config),
        !starts_librefm(ScrobbleSettings::none(), config),
        ScrobbleSettings::none().listenbrainz is None,
{
}

/// The track that the services are told of is the one that plays: every fact of the payload
/// is there under its own name, and nothing is made up.
pub proof fn law_the_scrobbled_track_is_the_one_that_plays(
    track: ScrobbleTrack,
    payload: TrackStartedPayload,
    now_secs: u64,
)
    requires
        is_track_of(track, payload, now_secs),
    ensures
        track.artist == payload.artist,
        track.artist_primary == payload.artist_primary,
        track.track == payload.title,
        track.album == payload.album,
        track.album_artist == payload.album_artist,
        track.duration_secs == payload.duration_secs,
        track.track_number == payload.track_number,
        track.chosen_by_user == payload.chosen_by_user,
        track.isrc == payload.isrc,
        track.track_id == payload.track_id,
        track.timestamp == now_secs as i64,
        track.recording_mbid is None,
        track.artist_mbids@.len() == 0,
{
}

/// The container of a play is named by its kind and its id, in that order, and only where
/// both are there.
pub proof fn law_a_source_needs_kind_and_id(payload: TrackStartedPayload)
    ensures
        source_in(payload) is Some <==> payload.source_type is Some && payload.source_id is Some,
        source_in(payload) matches Some((kind, id)) ==> payload.source_type == Some(kind)
            && payload.source_id == Some(id),
{
}

/// Each service is reached at its own address, with its own pair of keys: the first is the
/// key, the second the secret.
pub proof fn law_services_have_their_own_addresses_and_keys(
    endpoint: Endpoint,
    config: ScrobbleConfig,
)
    ensures
        is_lastfm(endpoint, config) ==> {
            &&& endpoint.name@ == "lastfm"@
            &&& endpoint.api_url@ == "https://ws.audioscrobbler.com/2.0/"@
            &&& endpoint.auth_base_url@ == "https://www.last.fm/api/auth/"@
            &&& endpoint.api_key@ == config.lastfm.stream_key_a@
            &&& endpoint.api_secret@ == config.lastfm.stream_key_b@
        },
        is_librefm(endpoint, config) ==> {
            &&& endpoint.name@ == "librefm"@
            &&& endpoint.api_url@ == config.librefm_api_url@
            &&& endpoint.auth_base_url@ == "https://libre.fm/api/auth/"@
            &&& endpoint.api_key@ == config.librefm.stream_key_a@
            &&& endpoint.api_secret@ == config.librefm.stream_key_b@
        },
        !(is_lastfm(endpoint, config) && is_librefm(endpoint, config)),
{
    reveal_strlit("lastfm");
    reveal_strlit("librefm");
    assert("lastfm"@.len() == 6 && "librefm"@.len() == 7);
}

/// Connecting or disconnecting a service changes the scrobbling settings alone.
pub proof fn law_only_the_scrobbling_settings_change(
    settings: Settings,
    scrobble: ScrobbleSettings,
)
    ensures
        with_scrobble(settings, scrobble).scrobble == scrobble,
        with_scrobble(with_scrobble(settings, scrobble), settings.scrobble) == settings,
        with_scrobble(settings, settings.scrobble) == settings,
{
}

/// Disconnecting a service takes its own credentials and leaves those of the others.
pub proof fn law_disconnecting_takes_one_service(scrobble: ScrobbleSettings)
    ensures
        without_provider(scrobble, "lastfm"@) matches Some(rest) && rest.lastfm is None
            && rest.librefm == scrobble.librefm && rest.listenbrainz == scrobble.listenbrainz,
        without_provider(scrobble, "librefm"@) matches Some(rest) && rest.librefm is None
            && rest.lastfm == scrobble.lastfm && rest.listenbrainz == scrobble.listenbrainz,
        without_provider(scrobble, "listenbrainz"@) matches Some(rest) && rest.listenbrainz is None
            && rest.lastfm == scrobble.lastfm && rest.librefm == scrobble.librefm,
        forall|name: Seq<char>|
            name != "lastfm"@ && name != "librefm"@ && name != "listenbrainz"@ ==> (
            #[trigger] without_provider(scrobble, name)) is None,
{
    reveal_strlit("lastfm");
    reveal_strlit("librefm");
    reveal_strlit("listenbrainz");
    assert("lastfm"@.len() == 6 && "librefm"@.len() == 7 && "listenbrainz"@.len() == 12);
}

/// A saved service starts up under the session and the name that were saved for it, and
/// only where it was saved and the build has its keys.
pub proof fn law_saved_services_start_as_they_were_saved(
    provider: SavedProvider,
    creds: LastfmCredentials,
    scrobble: ScrobbleSettings,
    config: ScrobbleConfig,
)
    ensures
        is_saved_lastfm(provider, creds, config) ==> (provider matches
            SavedProvider::Audioscrobbler { endpoint, session_key, username }
            && endpoint.name@ == "lastfm"@ && session_key@ == creds.session_key@ && username@
            == creds.username@),
        is_saved_librefm(provider, creds, config) ==> (provider matches
            SavedProvider::Audioscrobbler { endpoint, session_key, username }
            && endpoint.name@ == "librefm"@ && session_key@ == creds.session_key@ && username@
            == creds.username@),
        starts_lastfm(scrobble, config) <==> scrobble.lastfm is Some
            && config.lastfm.has_stream_keys,
        starts_librefm(scrobble, config) <==> scrobble.librefm is Some
            && config.librefm.has_stream_keys,
{
}

} // verus!
