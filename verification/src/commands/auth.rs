//! Signing in and out: which credentials are used, what is kept of them, and the
//! PKCE login.

use crate::encoding;
use crate::error::SoneError;
use crate::random;
use crate::settings::{self, AuthMethod, AuthTokens, ScrobbleSettings, Settings};
use crate::text;
use vstd::prelude::*;
use vstd::string::*;
use vstd::utf8::*;

verus! {

// ---------------------------------------------------------------------------
// Credentials
// ---------------------------------------------------------------------------

/// The credentials that are compiled into the build: a device-code pair and a PKCE
/// pair. A build may hold placeholders in place of either.
#[derive(Debug)]
pub struct EmbeddedConfig {
    pub has_stream_keys: bool,
    pub stream_key_a: String,
    pub stream_key_b: String,
    pub has_pkce_keys: bool,
    pub stream_key_c: String,
    pub stream_key_d: String,
}

impl EmbeddedConfig {
    /// These are the embedded device-code credentials.
    pub open spec fn is_device_pair(self, id: Seq<char>, secret: Seq<char>) -> bool {
        self.has_stream_keys && id == self.stream_key_a@ && secret == self.stream_key_b@
    }

    /// These are the embedded PKCE credentials.
    pub open spec fn is_pkce_pair(self, id: Seq<char>, secret: Seq<char>) -> bool {
        self.has_pkce_keys && id == self.stream_key_c@ && secret == self.stream_key_d@
    }

    /// The embedded pair that saved tokens of this method belong to.
    pub open spec fn pair_for(self, method: AuthMethod) -> (Seq<char>, Seq<char>) {
        if method is Pkce && self.has_pkce_keys {
            (self.stream_key_c@, self.stream_key_d@)
        } else {
            (self.stream_key_a@, self.stream_key_b@)
        }
    }
}

/// The credentials that go with saved settings: the user's own, else the embedded
/// pair.
pub open spec fn resolved(settings: Settings, config: EmbeddedConfig) -> (Seq<char>, Seq<char>) {
    if settings.client_id@.len() > 0 {
        (settings.client_id@, settings.client_secret@)
    } else {
        config.pair_for(settings.auth_method)
    }
}

/// The texts of a pair.
pub open spec fn pair_text(pair: (String, String)) -> (Seq<char>, Seq<char>) {
    (pair.0@, pair.1@)
}

/// Check if the given credentials match the embedded device-code defaults.
pub fn are_embedded_defaults(id: &str, secret: &str, config: &EmbeddedConfig) -> (matching: bool)
    ensures
        matching == config.is_device_pair(id@, secret@),
{
    config.has_stream_keys && text::same_text(id, config.stream_key_a.as_str())
        && text::same_text(secret, config.stream_key_b.as_str())
}

/// Check if the given credentials match the embedded PKCE defaults.
pub fn are_embedded_pkce_defaults(id: &str, secret: &str, config: &EmbeddedConfig) -> (matching:
    bool)
    ensures
        matching == config.is_pkce_pair(id@, secret@),
{
    config.has_pkce_keys && text::same_text(id, config.stream_key_c.as_str())
        && text::same_text(secret, config.stream_key_d.as_str())
}

/// Resolve credentials from saved settings, falling back to embedded defaults
/// matching the saved auth method (`LoginCode`: device-code pair, `Pkce`: PKCE pair
/// where the build has one).
pub fn resolve_credentials(settings: &Settings, config: &EmbeddedConfig) -> (pair: (String, String))
    ensures
        pair_text(pair) == resolved(*settings, *config),
{
    if !text::is_empty(settings.client_id.as_str()) {
        return (settings.client_id.clone(), settings.client_secret.clone());
    }
    match settings.auth_method {
        AuthMethod::Pkce if config.has_pkce_keys => (
            config.stream_key_c.clone(),
            config.stream_key_d.clone(),
        ),
        _ => (config.stream_key_a.clone(), config.stream_key_b.clone()),
    }
}

/// The greeting of a name.
pub fn greet(name: &str) -> (greeting: String)
    ensures
        greeting@ == "Hello, "@ + name@ + "! You've been greeted from Rust!"@,
{
    let mut greeting = "Hello, ".to_string();
    greeting.append(name);
    greeting.append("! You've been greeted from Rust!");
    greeting
}

/// What a session needs to go on where the last run left it.
#[derive(Debug)]
pub struct SavedAuth {
    pub tokens: AuthTokens,
    pub client_id: String,
    pub client_secret: String,
}

/// The saved session, if somebody is signed in: the tokens, and the credentials
/// that refresh them.
pub fn load_saved_auth(stored: &Option<Settings>, config: &EmbeddedConfig) -> (saved: Option<
    SavedAuth,
>)
    ensures
        match *stored {
            Some(settings) => match settings.auth_tokens {
                Some(tokens) => {
                    &&& saved matches Some(saved)
                    &&& saved.tokens == tokens
                    &&& (saved.client_id@, saved.client_secret@) == resolved(settings, *config)
                },
                None => saved is None,
            },
            None => saved is None,
        },
{
    match stored {
        Some(settings) => match &settings.auth_tokens {
            Some(tokens) => {
                let (client_id, client_secret) = resolve_credentials(settings, config);
                Some(SavedAuth { tokens: tokens.clone(), client_id, client_secret })
            },
            None => None,
        },
        None => None,
    }
}

/// The saved client credentials, so that the login page can pre-fill the advanced
/// view. Only returns user-provided credentials, never embedded defaults.
pub fn get_saved_credentials(stored: &Option<Settings>, config: &EmbeddedConfig) -> (pair: (
    String,
    String,
))
    ensures
        pair_text(pair) == saved_credentials(*stored, *config),
{
    match stored {
        Some(settings) => {
            let id = settings.client_id.as_str();
            let secret = settings.client_secret.as_str();
            if are_embedded_defaults(id, secret, config) || are_embedded_pkce_defaults(
                id,
                secret,
                config,
            ) {
                (text::empty(), text::empty())
            } else {
                (settings.client_id.clone(), settings.client_secret.clone())
            }
        },
        None => (text::empty(), text::empty()),
    }
}

/// The user's own credentials in stored settings; empty ones where there are none.
pub open spec fn saved_credentials(stored: Option<Settings>, config: EmbeddedConfig) -> (
    Seq<char>,
    Seq<char>,
) {
    match stored {
        Some(settings) => if config.is_device_pair(settings.client_id@, settings.client_secret@)
            || config.is_pkce_pair(settings.client_id@, settings.client_secret@) {
            (Seq::empty(), Seq::empty())
        } else {
            (settings.client_id@, settings.client_secret@)
        },
        None => (Seq::empty(), Seq::empty()),
    }
}

/// The embedded default credentials (for the simple login flow). Returns empty
/// strings if only placeholders are compiled in.
pub fn get_default_credentials(config: &EmbeddedConfig) -> (pair: (String, String))
    ensures
        pair_text(pair) == if config.has_stream_keys {
            (config.stream_key_a@, config.stream_key_b@)
        } else {
            (Seq::empty(), Seq::empty())
        },
{
    if config.has_stream_keys {
        (config.stream_key_a.clone(), config.stream_key_b.clone())
    } else {
        (text::empty(), text::empty())
    }
}

/// Whether embedded PKCE credentials are compiled in.
pub fn has_pkce_defaults(config: &EmbeddedConfig) -> (has: bool)
    ensures
        has == config.has_pkce_keys,
{
    config.has_pkce_keys
}

// ---------------------------------------------------------------------------
// What is kept of a session
// ---------------------------------------------------------------------------

/// `after` keeps these tokens, and otherwise what `before` holds except for the
/// sign-in method and the credentials.
pub open spec fn keeps_all_but_login(before: Settings, after: Settings, tokens: AuthTokens) -> bool {
    after == (Settings {
        auth_tokens: Some(tokens),
        auth_method: after.auth_method,
        client_id: after.client_id,
        client_secret: after.client_secret,
        ..before
    })
}

/// How an imported session gets its tokens.
#[derive(Debug)]
pub enum ImportPlan {
    /// These tokens are used as they are; the account they belong to is asked for.
    Verify(AuthTokens),
    /// These tokens stand in while the refresh token is exchanged.
    Refresh(AuthTokens),
}

/// The message for an import without the credentials that it needs.
pub const IMPORT_INCOMPLETE: &'static str = "Client ID and refresh token are required";

/// The tokens of an import before TIDAL was asked.
pub open spec fn is_import_plan(
    plan: ImportPlan,
    refresh_token: String,
    access_token: Option<String>,
) -> bool {
    match access_token {
        Some(access) if access@.len() > 0 => {
            &&& plan matches ImportPlan::Verify(tokens)
            &&& tokens.access_token == access
            &&& tokens.refresh_token == refresh_token
            &&& tokens.expires_in == 86400
            &&& tokens.token_type@ == "Bearer"@
            &&& tokens.user_id is None
        },
        _ => {
            &&& plan matches ImportPlan::Refresh(tokens)
            &&& tokens.access_token@ == Seq::<char>::empty()
            &&& tokens.refresh_token == refresh_token
            &&& tokens.expires_in == 0
            &&& tokens.token_type@ == "Bearer"@
            &&& tokens.user_id is None
        },
    }
}

/// Import a session from its tokens. A client id and a refresh token are needed; an
/// access token is used if there is one.
pub fn import_session(
    client_id: &str,
    refresh_token: String,
    access_token: Option<String>,
) -> (plan: Result<ImportPlan, SoneError>)
    ensures
        match plan {
            Ok(plan) => {
                &&& client_id@.len() > 0 && refresh_token@.len() > 0
                &&& is_import_plan(plan, refresh_token, access_token)
                &&& match plan {
                    ImportPlan::Verify(tokens) => {
                        &&& access_token == Some(tokens.access_token)
                        &&& tokens.access_token@.len() > 0
                        &&& tokens.refresh_token == refresh_token
                    },
                    ImportPlan::Refresh(tokens) => {
                        &&& access_token matches Some(access) ==> access@.len() == 0
                        &&& tokens.refresh_token == refresh_token
                    },
                }
            },
            Err(error) => {
                &&& client_id@.len() == 0 || refresh_token@.len() == 0
                &&& error matches SoneError::NotConfigured(message)
                &&& message@ == IMPORT_INCOMPLETE@
            },
        },
{
    if text::is_empty(client_id) || text::is_empty(refresh_token.as_str()) {
        return Err(SoneError::NotConfigured(IMPORT_INCOMPLETE.to_string()));
    }
    let bearer = "Bearer".to_string();
    if let Some(access) = access_token {
        if !text::is_empty(access.as_str()) {
            return Ok(
                ImportPlan::Verify(
                    AuthTokens {
                        access_token: access,
                        refresh_token,
                        expires_in: 86400,
                        token_type: bearer,
                        user_id: None,
                    },
                ),
            );
        }
    }
    Ok(
        ImportPlan::Refresh(
            AuthTokens {
                access_token: text::empty(),
                refresh_token,
                expires_in: 0,
                token_type: bearer,
                user_id: None,
            },
        ),
    )
}

/// The tokens of an import once TIDAL was asked whose they are: the account is
/// added if the answer named it.
pub fn verified_tokens(tokens: AuthTokens, user_id: Option<u64>) -> (verified: AuthTokens)
    ensures
        verified == (AuthTokens { user_id, ..tokens }),
        verified.access_token == tokens.access_token,
        verified.refresh_token == tokens.refresh_token,
        verified.expires_in == tokens.expires_in,
        verified.token_type == tokens.token_type,
        verified.user_id == user_id,
{
    AuthTokens {
        access_token: tokens.access_token,
        refresh_token: tokens.refresh_token,
        expires_in: tokens.expires_in,
        token_type: tokens.token_type,
        user_id,
    }
}

/// `after` holds the credentials of an import, or what `before` held where they are
/// the embedded device-code pair.
pub open spec fn keeps_imported(
    before: Settings,
    after: Settings,
    client_id: String,
    client_secret: String,
    config: EmbeddedConfig,
) -> bool {
    if config.is_device_pair(client_id@, client_secret@) {
        after.client_id == before.client_id && after.client_secret == before.client_secret
    } else {
        after.client_id == client_id && after.client_secret == client_secret
    }
}

/// The settings of an imported session. The credentials are stored, except for the
/// embedded device-code pair, where those of before stay.
pub fn imported_settings(
    stored: Option<Settings>,
    tokens: &AuthTokens,
    client_id: String,
    client_secret: String,
    config: &EmbeddedConfig,
) -> (settings: Settings)
    ensures
        exists|before: Settings|
            #![trigger settings::is_loaded(before, stored)]
            {
                &&& settings::is_loaded(before, stored)
                &&& keeps_all_but_login(before, settings, *tokens)
                &&& settings.auth_method == before.auth_method
                &&& keeps_imported(before, settings, client_id, client_secret, *config)
            },
{
    let mut settings = settings::or_default(stored);
    let ghost before = settings;
    settings.auth_tokens = Some(tokens.clone());
    if !are_embedded_defaults(client_id.as_str(), client_secret.as_str(), config) {
        settings.client_id = client_id;
        settings.client_secret = client_secret;
    }
    assert(settings::is_loaded(before, stored));
    settings
}

/// `after` holds the user's own credentials, or none where they are embedded ones.
pub open spec fn keeps_credentials(
    after: Settings,
    client_id: Seq<char>,
    client_secret: Seq<char>,
    embedded: bool,
) -> bool {
    if embedded {
        after.client_id@ == Seq::<char>::empty() && after.client_secret@ == Seq::<char>::empty()
    } else {
        after.client_id@ == client_id && after.client_secret@ == client_secret
    }
}

/// The answer to a poll of a device-code login came in: `None` while it is still
/// pending, else the settings of the session. The credentials are stored, except for
/// the embedded device-code pair, where none are.
pub fn poll_device_auth(
    polled: &Option<AuthTokens>,
    stored: Option<Settings>,
    client_id: String,
    client_secret: String,
    config: &EmbeddedConfig,
) -> (settings: Option<Settings>)
    ensures
        match *polled {
            Some(tokens) => {
                &&& settings matches Some(settings)
                &&& exists|before: Settings|
                    #![trigger settings::is_loaded(before, stored)]
                    {
                        &&& settings::is_loaded(before, stored)
                        &&& keeps_all_but_login(before, settings, tokens)
                        &&& settings.auth_method is LoginCode
                        &&& keeps_credentials(
                            settings,
                            client_id@,
                            client_secret@,
                            config.is_device_pair(client_id@, client_secret@),
                        )
                    }
            },
            None => settings is None,
        },
{
    match polled {
        Some(tokens) => {
            let mut settings = settings::or_default(stored);
            let ghost before = settings;
            settings.auth_tokens = Some(tokens.clone());
            settings.auth_method = AuthMethod::LoginCode;
            if !are_embedded_defaults(client_id.as_str(), client_secret.as_str(), config) {
                settings.client_id = client_id;
                settings.client_secret = client_secret;
            } else {
                settings.client_id = text::empty();
                settings.client_secret = text::empty();
            }
            assert(settings::is_loaded(before, stored));
            Some(settings)
        },
        None => None,
    }
}

/// The settings once the tokens are refreshed: only the tokens change.
pub fn refresh_tidal_auth(stored: Option<Settings>, tokens: &AuthTokens) -> (settings: Settings)
    ensures
        exists|before: Settings|
            #![trigger settings::is_loaded(before, stored)]
            {
                &&& settings::is_loaded(before, stored)
                &&& settings == (Settings { auth_tokens: Some(*tokens), ..before })
                &&& keeps_all_but_login(before, settings, *tokens)
                &&& settings.auth_method == before.auth_method
                &&& settings.client_id == before.client_id
                &&& settings.client_secret == before.client_secret
            },
{
    let mut settings = settings::or_default(stored);
    let ghost before = settings;
    settings.auth_tokens = Some(tokens.clone());
    assert(settings::is_loaded(before, stored));
    settings
}

/// The settings of a session that was signed in to by PKCE. Only user-provided
/// credentials are stored, not embedded defaults. The count of legacy notices
/// stays: it never resets.
pub fn complete_pkce_auth(
    stored: Option<Settings>,
    tokens: &AuthTokens,
    client_id: String,
    client_secret: String,
    config: &EmbeddedConfig,
) -> (settings: Settings)
    ensures
        exists|before: Settings|
            #![trigger settings::is_loaded(before, stored)]
            {
                &&& settings::is_loaded(before, stored)
                &&& keeps_all_but_login(before, settings, *tokens)
                &&& settings.auth_method is Pkce
                &&& keeps_credentials(
                    settings,
                    client_id@,
                    client_secret@,
                    config.is_pkce_pair(client_id@, client_secret@) || config.is_device_pair(
                        client_id@,
                        client_secret@,
                    ),
                )
            },
{
    let mut settings = settings::or_default(stored);
    let ghost before = settings;
    settings.auth_tokens = Some(tokens.clone());
    settings.auth_method = AuthMethod::Pkce;
    if !are_embedded_pkce_defaults(client_id.as_str(), client_secret.as_str(), config)
        && !are_embedded_defaults(client_id.as_str(), client_secret.as_str(), config) {
        settings.client_id = client_id;
        settings.client_secret = client_secret;
    } else {
        settings.client_id = text::empty();
        settings.client_secret = text::empty();
    }
    assert(settings::is_loaded(before, stored));
    settings
}

/// The settings of a session that was signed in to by PKCE with the embedded
/// credentials, which are never stored.
pub fn finish_embedded_pkce(stored: Option<Settings>, tokens: &AuthTokens) -> (settings: Settings)
    ensures
        exists|before: Settings|
            #![trigger settings::is_loaded(before, stored)]
            {
                &&& settings::is_loaded(before, stored)
                &&& keeps_all_but_login(before, settings, *tokens)
                &&& settings.auth_method is Pkce
                &&& settings.client_id@ == Seq::<char>::empty()
                &&& settings.client_secret@ == Seq::<char>::empty()
            },
{
    let mut settings = settings::or_default(stored);
    let ghost before = settings;
    settings.auth_tokens = Some(tokens.clone());
    settings.auth_method = AuthMethod::Pkce;
    settings.client_id = text::empty();
    settings.client_secret = text::empty();
    assert(settings::is_loaded(before, stored));
    settings
}

/// The country of nobody in particular.
pub const DEFAULT_COUNTRY: &'static str = "US";

/// What a logout does, step by step.
#[derive(Clone, Copy, Debug, PartialEq, Eq, Structural)]
pub enum LogoutStep {
    /// Drop the scrobbling services, the track that they follow and what they wait
    /// to send.
    PurgeScrobblers,
    /// Drop the play that is followed and the reports that wait.
    PurgeReports,
    /// Tear down the pipeline, and clear what the desktop shows.
    StopPlayback,
    DisconnectDiscord,
    StopMcp,
    /// Let the machine go to sleep again.
    ReleaseIdle,
    /// End the session of the TIDAL client, as [`logout_session`] says.
    EndSession,
    /// Store the settings, as [`logout`] says.
    StoreSettings,
    ClearCache,
}

/// The steps of a logout, in order.
pub open spec fn logout_order() -> Seq<LogoutStep> {
    seq![
        LogoutStep::PurgeScrobblers,
        LogoutStep::PurgeReports,
        LogoutStep::StopPlayback,
        LogoutStep::DisconnectDiscord,
        LogoutStep::StopMcp,
        LogoutStep::ReleaseIdle,
        LogoutStep::EndSession,
        LogoutStep::StoreSettings,
        LogoutStep::ClearCache,
    ]
}

/// `a` comes before `b` in a list that holds both.
pub open spec fn comes_before(steps: Seq<LogoutStep>, a: LogoutStep, b: LogoutStep) -> bool {
    &&& steps.contains(a)
    &&& steps.contains(b)
    &&& forall|i: int, j: int|
        0 <= i < steps.len() && 0 <= j < steps.len() && #[trigger] steps[i] == a
            && #[trigger] steps[j] == b ==> i < j
}

/// The steps of a logout, in order. What is followed and what waits is purged before
/// playback stops, so that the interrupted track is neither scrobbled nor reported.
pub fn logout_steps() -> (steps: Vec<LogoutStep>)
    ensures
        steps@ == logout_order(),
        comes_before(steps@, LogoutStep::PurgeScrobblers, LogoutStep::StopPlayback),
        comes_before(steps@, LogoutStep::PurgeReports, LogoutStep::StopPlayback),
        comes_before(steps@, LogoutStep::StopPlayback, LogoutStep::DisconnectDiscord),
        comes_before(steps@, LogoutStep::StopPlayback, LogoutStep::ReleaseIdle),
        comes_before(steps@, LogoutStep::StopPlayback, LogoutStep::EndSession),
        comes_before(steps@, LogoutStep::EndSession, LogoutStep::StoreSettings),
        comes_before(steps@, LogoutStep::StoreSettings, LogoutStep::ClearCache),
        steps@.contains(LogoutStep::StopMcp),
{
    let mut steps: Vec<LogoutStep> = Vec::new();
    steps.push(LogoutStep::PurgeScrobblers);
    steps.push(LogoutStep::PurgeReports);
    steps.push(LogoutStep::StopPlayback);
    steps.push(LogoutStep::DisconnectDiscord);
    steps.push(LogoutStep::StopMcp);
    steps.push(LogoutStep::ReleaseIdle);
    steps.push(LogoutStep::EndSession);
    steps.push(LogoutStep::StoreSettings);
    steps.push(LogoutStep::ClearCache);
    assert(steps@ =~= logout_order());
    assert(steps@[0] is PurgeScrobblers && steps@[1] is PurgeReports && steps@[2] is StopPlayback);
    assert(steps@[3] is DisconnectDiscord && steps@[4] is StopMcp && steps@[5] is ReleaseIdle);
    assert(steps@[6] is EndSession && steps@[7] is StoreSettings && steps@[8] is ClearCache);
    steps
}

/// The session of the TIDAL client: who is signed in, where, and with which
/// credentials.
#[derive(Debug)]
pub struct ClientSession {
    pub tokens: Option<AuthTokens>,
    pub country_code: String,
    pub client_id: String,
    pub client_secret: String,
}

/// The session after a logout: nobody is signed in and the country is unknown again,
/// but the login credentials stay for the next login.
pub fn logout_session(session: ClientSession) -> (ended: ClientSession)
    ensures
        ended.tokens is None,
        ended.country_code@ == DEFAULT_COUNTRY@,
        ended.client_id == session.client_id,
        ended.client_secret == session.client_secret,
{
    ClientSession {
        tokens: None,
        country_code: DEFAULT_COUNTRY.to_string(),
        client_id: session.client_id,
        client_secret: session.client_secret,
    }
}

/// The settings of a user who logged out.
pub open spec fn logged_out(settings: Settings) -> Settings {
    Settings {
        auth_tokens: None,
        last_track_id: None,
        scrobble: ScrobbleSettings::none(),
        ..settings
    }
}

/// The settings after a logout: tokens, last track and scrobbling credentials are
/// gone, the rest (login credentials, audio prefs, Discord and MCP settings) stays.
/// `None` where no settings could be loaded: their file is to be removed.
pub fn logout(stored: Option<Settings>) -> (settings: Option<Settings>)
    ensures
        settings == match stored {
            Some(before) => Some(
                Settings {
                    auth_tokens: None,
                    last_track_id: None,
                    scrobble: ScrobbleSettings::none(),
                    ..before
                },
            ),
            None => None,
        },
        stored matches Some(before) ==> settings == Some(logged_out(before)),
{
    match stored {
        Some(mut settings) => {
            settings.auth_tokens = None;
            settings.last_track_id = None;
            settings.scrobble = ScrobbleSettings::default();
            Some(settings)
        },
        None => None,
    }
}

/// Whether a login reconnects Discord.
pub fn restores_discord(stored: &Option<Settings>) -> (connect: bool)
    ensures
        connect == (stored matches Some(settings) && settings.discord_rpc),
{
    match stored {
        Some(settings) => settings.discord_rpc,
        None => false,
    }
}

// ---------------------------------------------------------------------------
// The legacy sign-in notice
// ---------------------------------------------------------------------------

/// How often the notice is shown.
pub const LEGACY_AUTH_NOTICE_LIMIT: u8 = 5;

/// The notice is due: the user is signed in by the legacy device code, and has not
/// seen it five times.
pub open spec fn notice_is_due(settings: Settings) -> bool {
    &&& settings.auth_tokens is Some
    &&& settings.auth_method is LoginCode
    &&& settings.legacy_auth_notice_count < LEGACY_AUTH_NOTICE_LIMIT
}

/// The settings to store when the notice is shown, with the incremented counter;
/// `None` where it is not to be shown (PKCE users, unauthenticated, cap hit).
pub fn consume_legacy_auth_notice(stored: Option<Settings>) -> (shown: Option<Settings>)
    ensures
        shown == match stored {
            Some(settings) => if notice_is_due(settings) {
                Some(
                    Settings {
                        legacy_auth_notice_count: (settings.legacy_auth_notice_count + 1) as u8,
                        ..settings
                    },
                )
            } else {
                None
            },
            None => None,
        },
{
    match stored {
        Some(mut settings) => {
            if settings.auth_tokens.is_none() || settings.auth_method != AuthMethod::LoginCode
                || settings.legacy_auth_notice_count >= LEGACY_AUTH_NOTICE_LIMIT {
                return None;
            }
            settings.legacy_auth_notice_count = settings.legacy_auth_notice_count + 1;
            Some(settings)
        },
        None => None,
    }
}

// ---------------------------------------------------------------------------
// PKCE
// ---------------------------------------------------------------------------

/// Where TIDAL sends the user back to after a login.
pub const PKCE_REDIRECT_URI: &'static str = "https://tidal.com/android/login/auth";

/// The label of the window in which the user signs in.
pub const PKCE_WINDOW: &'static str = "pkce-login";

/// The title of that window.
pub const PKCE_WINDOW_TITLE: &'static str = "Sign in to TIDAL";

/// The message for a build without embedded PKCE credentials.
pub const PKCE_NOT_EMBEDDED: &'static str = "PKCE credentials are not embedded in this build";

/// The message for a missing client id.
pub const CLIENT_ID_REQUIRED: &'static str = "Client ID is required";

/// What a PKCE login starts with: where to send the user, and what to keep until
/// they are back.
#[derive(Debug)]
pub struct PkceAuthParams {
    pub authorize_url: String,
    pub code_verifier: String,
    pub client_unique_key: String,
}

/// The code challenge of a verifier (method S256): its SHA-256 digest in URL-safe
/// base64.
pub open spec fn code_challenge(verifier: Seq<char>) -> Seq<char> {
    encoding::base64url(encoding::sha256(encode_utf8(verifier)))
}

/// Where to send the user.
pub open spec fn authorize_url(
    client_id: Seq<char>,
    unique_key: Seq<char>,
    challenge: Seq<char>,
) -> Seq<char> {
    "https://login.tidal.com/authorize?response_type=code&redirect_uri=https%3A%2F%2Ftidal.com%2Fandroid%2Flogin%2Fauth&client_id="@
        + client_id + "&lang=EN&appMode=android&client_unique_key="@ + unique_key
        + "&code_challenge="@ + challenge + "&code_challenge_method=S256&restrict_signup=true"@
}

/// `params` start a login of this client, with these random bytes and this random
/// number.
pub open spec fn starts_login(
    params: PkceAuthParams,
    client_id: Seq<char>,
    bytes: Seq<u8>,
    number: u64,
) -> bool {
    let verifier = encoding::base64url(bytes);
    let key = text::hex(number as nat, 16);
    &&& params.code_verifier@ == verifier
    &&& params.client_unique_key@ == key
    &&& params.authorize_url@ == authorize_url(client_id, key, code_challenge(verifier))
}

/// `params` start a login of this client, with some 32 random bytes and some random
/// number.
pub open spec fn starts_some_login(params: PkceAuthParams, client_id: Seq<char>) -> bool {
    exists|bytes: Seq<u8>, number: u64|
        bytes.len() == 32 && #[trigger] starts_login(params, client_id, bytes, number)
}

/// The parameters of a login, from 32 random bytes and a random number.
pub fn pkce_params_from(client_id: &str, bytes: &[u8; 32], number: u64) -> (params: PkceAuthParams)
    ensures
        starts_login(params, client_id@, bytes@, number),
{
    let code_verifier = encoding::encode_url_safe_no_pad(bytes.as_slice());
    let digest = encoding::sha256_digest(code_verifier.as_str().as_bytes());
    let challenge = encoding::encode_url_safe_no_pad(digest.as_slice());
    let client_unique_key = text::hex_text(number, 16);
    let mut authorize_url =
        "https://login.tidal.com/authorize?response_type=code&redirect_uri=https%3A%2F%2Ftidal.com%2Fandroid%2Flogin%2Fauth&client_id=".to_string();
    authorize_url.append(client_id);
    authorize_url.append("&lang=EN&appMode=android&client_unique_key=");
    authorize_url.append(client_unique_key.as_str());
    authorize_url.append("&code_challenge=");
    authorize_url.append(challenge.as_str());
    authorize_url.append("&code_challenge_method=S256&restrict_signup=true");
    PkceAuthParams { authorize_url, code_verifier, client_unique_key }
}

/// The parameters of a login, with fresh random values.
pub fn build_pkce_params(client_id: &str) -> (params: PkceAuthParams)
    ensures
        starts_some_login(params, client_id@),
{
    let bytes = random::random_bytes();
    let number: u64 = random::random_number();
    let params = pkce_params_from(client_id, &bytes, number);
    assert(bytes@.len() == 32 && starts_login(params, client_id@, bytes@, number));
    params
}

/// Start a PKCE login with the user's own client.
pub fn start_pkce_auth(client_id: String) -> (params: Result<PkceAuthParams, SoneError>)
    ensures
        match params {
            Ok(params) => client_id@.len() > 0 && starts_some_login(params, client_id@),
            Err(error) => {
                &&& client_id@.len() == 0
                &&& error matches SoneError::NotConfigured(message)
                &&& message@ == CLIENT_ID_REQUIRED@
            },
        },
{
    if text::is_empty(client_id.as_str()) {
        return Err(SoneError::NotConfigured(CLIENT_ID_REQUIRED.to_string()));
    }
    Ok(build_pkce_params(client_id.as_str()))
}

/// Failsafe: start a PKCE login with the embedded client, for the user's default
/// browser. The client id lives only inside the URL.
pub fn start_pkce_browser_login(config: &EmbeddedConfig) -> (params: Result<
    PkceAuthParams,
    SoneError,
>)
    ensures
        match params {
            Ok(params) => config.has_pkce_keys && starts_some_login(params, config.stream_key_c@),
            Err(error) => {
                &&& !config.has_pkce_keys
                &&& error matches SoneError::NotConfigured(message)
                &&& message@ == PKCE_NOT_EMBEDDED@
            },
        },
{
    if !config.has_pkce_keys {
        return Err(SoneError::NotConfigured(PKCE_NOT_EMBEDDED.to_string()));
    }
    Ok(build_pkce_params(config.stream_key_c.as_str()))
}

/// What is asked of TIDAL to turn a code into tokens.
#[derive(Debug)]
pub struct PkceExchange {
    pub client_id: String,
    pub client_secret: String,
    pub code: String,
    pub code_verifier: String,
    pub client_unique_key: String,
}

/// The exchange of a code that came back from a login with the embedded client.
pub fn complete_pkce_browser_login(
    code: String,
    code_verifier: String,
    client_unique_key: String,
    config: &EmbeddedConfig,
) -> (exchange: PkceExchange)
    ensures
        exchange == (PkceExchange {
            client_id: config.stream_key_c,
            client_secret: config.stream_key_d,
            code,
            code_verifier,
            client_unique_key,
        }),
        exchange.code == code,
        exchange.code_verifier == code_verifier,
        exchange.client_unique_key == client_unique_key,
        exchange.client_id == config.stream_key_c,
        exchange.client_secret == config.stream_key_d,
{
    PkceExchange {
        client_id: config.stream_key_c.clone(),
        client_secret: config.stream_key_d.clone(),
        code,
        code_verifier,
        client_unique_key,
    }
}

// ---------------------------------------------------------------------------
// The login window
// ---------------------------------------------------------------------------

/// What a login in the window keeps until the user is back.
#[derive(Debug)]
pub struct PendingPkce {
    pub code_verifier: String,
    pub client_unique_key: String,
}

/// The parts of a URL that the login reads.
#[derive(Debug)]
pub struct UrlParts {
    pub host: Option<String>,
    pub path: String,
    /// The query's pairs, decoded, in order.
    pub query: Vec<(String, String)>,
}

/// The model of [`UrlParts`].
pub ghost struct UrlView {
    pub host: Option<Seq<char>>,
    pub path: Seq<char>,
    pub query: Seq<(Seq<char>, Seq<char>)>,
}

/// The texts of a list of pairs.
pub open spec fn pair_texts(pairs: Seq<(String, String)>) -> Seq<(Seq<char>, Seq<char>)> {
    pairs.map_values(|p: (String, String)| (p.0@, p.1@))
}

impl View for UrlParts {
    type V = UrlView;

    open spec fn view(&self) -> UrlView {
        UrlView {
            host: text::text_of(self.host),
            path: self.path@,
            query: pair_texts(self.query@),
        }
    }
}

/// The model of a parsed URL, or of the error's text.
pub open spec fn url_view(url: Result<UrlParts, String>) -> Result<UrlView, Seq<char>> {
    match url {
        Ok(parts) => Ok(parts@),
        Err(message) => Err(message@),
    }
}

/// What `Url::parse` makes of a text.
pub uninterp spec fn parsed_url(text: Seq<char>) -> Result<UrlView, Seq<char>>;

/// `Url::parse` of the url crate (through reqwest), and the host, path and query
/// pairs of what it returns. What they are is named by `parsed_url`, as is the text
/// of the error.
#[verifier::external_body]
fn parse_url(text: &str) -> (url: Result<UrlParts, String>)
    ensures
        url_view(url) == parsed_url(text@),
{
    match reqwest::Url::parse(text) {
        Ok(url) => Ok(
            UrlParts {
                host: url.host_str().map(|host| host.to_string()),
                path: url.path().to_string(),
                query: url.query_pairs().map(|(k, v)| (k.into_owned(), v.into_owned())).collect(),
            },
        ),
        Err(error) => Err(error.to_string()),
    }
}

/// A login in the window: at most one is under way.
#[derive(Debug)]
pub struct PkceSlot {
    pub pending: Option<PendingPkce>,
}

/// What the window's navigation calls for.
#[derive(Debug)]
pub enum LoginStep {
    /// Nothing: the user is still signing in.
    Browse,
    /// The user is back with a code: exchange it.
    Exchange(PkceExchange),
    /// The user is back without a code, or nobody waits for one.
    Fail,
}

/// The message for a redirect without a code.
pub const NO_CODE: &'static str = "Tidal redirect did not include an authorization code";

/// This is the page that TIDAL sends the user back to.
pub open spec fn is_redirect(url: UrlView) -> bool {
    url.host == Some("tidal.com"@) && url.path == "/android/login/auth"@
}

/// The first value of a key among the pairs of a query.
pub open spec fn first_value(pairs: Seq<(Seq<char>, Seq<char>)>, key: Seq<char>) -> Option<
    Seq<char>,
>
    decreases pairs.len(),
{
    if pairs.len() == 0 {
        None
    } else if pairs[0].0 == key {
        Some(pairs[0].1)
    } else {
        first_value(pairs.drop_first(), key)
    }
}

/// `step` is what this navigation calls for.
pub open spec fn is_step(
    step: LoginStep,
    url: UrlView,
    pending: Option<PendingPkce>,
    config: EmbeddedConfig,
) -> bool {
    if !is_redirect(url) {
        step is Browse
    } else if first_value(url.query, "code"@) is Some && pending is Some {
        &&& step matches LoginStep::Exchange(exchange)
        &&& exchange.code@ == first_value(url.query, "code"@)->0
        &&& exchange.code_verifier == pending->0.code_verifier
        &&& exchange.client_unique_key == pending->0.client_unique_key
        &&& exchange.client_id == config.stream_key_c
        &&& exchange.client_secret == config.stream_key_d
    } else {
        step is Fail
    }
}

/// What is parked after a navigation: a redirect uses it up.
pub open spec fn pending_after(url: UrlView, pending: Option<PendingPkce>) -> Option<PendingPkce> {
    if is_redirect(url) {
        None
    } else {
        pending
    }
}

/// The value of the first pair with this key.
fn query_value(pairs: &Vec<(String, String)>, key: &str) -> (value: Option<String>)
    ensures
        text::text_of(value) == first_value(pair_texts(pairs@), key@),
{
    let ghost all = pair_texts(pairs@);
    let mut i: usize = 0;
    assert(all.skip(0) =~= all);
    while i < pairs.len()
        invariant
            i <= pairs@.len(),
            all == pair_texts(pairs@),
            first_value(all, key@) == first_value(all.skip(i as int), key@),
        decreases pairs@.len() - i,
    {
        assert(all.skip(i as int)[0] == (pairs@[i as int].0@, pairs@[i as int].1@));
        assert(all.skip(i as int).drop_first() =~= all.skip(i + 1));
        if text::same_text(pairs[i].0.as_str(), key) {
            return Some(pairs[i].1.clone());
        }
        i += 1;
    }
    None
}

/// What is parked for a login with these parameters.
pub open spec fn pending_of(params: PkceAuthParams) -> PendingPkce {
    PendingPkce {
        code_verifier: params.code_verifier,
        client_unique_key: params.client_unique_key,
    }
}

impl PkceSlot {
    /// No login is under way.
    pub fn new() -> (slot: Self)
        ensures
            slot.pending is None,
    {
        PkceSlot { pending: None }
    }

    /// Park what the login needs when the user is back. One that was under way is
    /// forgotten.
    pub fn park(&mut self, params: &PkceAuthParams)
        ensures
            final(self).pending == Some(
                PendingPkce {
                    code_verifier: params.code_verifier,
                    client_unique_key: params.client_unique_key,
                },
            ),
            final(self).pending == Some(pending_of(*params)),
    {
        self.pending = Some(
            PendingPkce {
                code_verifier: params.code_verifier.clone(),
                client_unique_key: params.client_unique_key.clone(),
            },
        );
    }

    /// The login window went to a page. A redirect uses up what was parked, also
    /// where it brings no code.
    pub fn on_page(&mut self, url: &UrlParts, config: &EmbeddedConfig) -> (step: LoginStep)
        ensures
            is_step(step, url@, old(self).pending, *config),
            final(self).pending == pending_after(url@, old(self).pending),
    {
        let at_tidal = match &url.host {
            Some(host) => text::same_text(host.as_str(), "tidal.com"),
            None => false,
        };
        if !(at_tidal && text::same_text(url.path.as_str(), "/android/login/auth")) {
            return LoginStep::Browse;
        }
        let code = query_value(&url.query, "code");
        let pending = self.pending.take();
        match code {
            Some(code) => match pending {
                Some(p) => LoginStep::Exchange(
                    complete_pkce_browser_login(code, p.code_verifier, p.client_unique_key, config),
                ),
                None => LoginStep::Fail,
            },
            None => LoginStep::Fail,
        }
    }

    /// The login window is about to go to this URL. Text that is no URL is no
    /// redirect.
    pub fn on_navigation(&mut self, url: &str, config: &EmbeddedConfig) -> (step: LoginStep)
        ensures
            match parsed_url(url@) {
                Ok(parts) => {
                    &&& is_step(step, parts, old(self).pending, *config)
                    &&& final(self).pending == pending_after(parts, old(self).pending)
                },
                Err(_) => step is Browse && final(self).pending == old(self).pending,
            },
    {
        match parse_url(url) {
            Ok(parts) => self.on_page(&parts, config),
            Err(_) => LoginStep::Browse,
        }
    }

    /// The login window closed. Returns whether the login was cancelled by that: it
    /// was if what was parked has not been used up.
    pub fn on_pkce_window_closed(&mut self) -> (cancelled: bool)
        ensures
            cancelled == (old(self).pending is Some),
            final(self).pending is None,
    {
        self.pending.take().is_some()
    }
}

impl LoginStep {
    /// Whether the window may go to the page. A page with a code is not shown; one
    /// without is, so that the user can see what TIDAL returned.
    pub fn allows_page(&self) -> (allowed: bool)
        ensures
            allowed == !(self is Exchange),
    {
        match self {
            LoginStep::Exchange(_) => false,
            _ => true,
        }
    }
}

/// Start a login in a window of its own. What it needs when the user is back is
/// parked before the URL is looked at. Returns the URL to open.
pub fn start_pkce_login_window(slot: &mut PkceSlot, config: &EmbeddedConfig) -> (url: Result<
    String,
    SoneError,
>)
    ensures
        if config.has_pkce_keys {
            exists|params: PkceAuthParams|
                #![trigger starts_some_login(params, config.stream_key_c@)]
                {
                    &&& starts_some_login(params, config.stream_key_c@)
                    &&& final(slot).pending == Some(
                        PendingPkce {
                            code_verifier: params.code_verifier,
                            client_unique_key: params.client_unique_key,
                        },
                    )
                    &&& match parsed_url(params.authorize_url@) {
                        Ok(_) => url matches Ok(url) && url == params.authorize_url,
                        Err(reason) => {
                            &&& url matches Err(SoneError::Parse(message))
                            &&& message@ == "invalid authorize URL: "@ + reason
                        },
                    }
                }
        } else {
            &&& url matches Err(SoneError::NotConfigured(message))
            &&& message@ == PKCE_NOT_EMBEDDED@
            &&& *final(slot) == *old(slot)
        },
{
    let params = match start_pkce_browser_login(config) {
        Ok(params) => params,
        Err(error) => {
            return Err(error);
        },
    };
    slot.park(&params);
    assert(starts_some_login(params, config.stream_key_c@));
    match parse_url(params.authorize_url.as_str()) {
        Ok(_) => Ok(params.authorize_url),
        Err(reason) => Err(
            SoneError::Parse(text::join("invalid authorize URL: ", reason.as_str())),
        ),
    }
}

/// The event that tells how a login ended: its name, and the error's text if it
/// failed.
pub fn login_event(result: &Result<AuthTokens, String>) -> (event: (&'static str, Option<String>))
    ensures
        match *result {
            Ok(_) => event.0@ == "pkce-login-success"@ && event.1 is None,
            Err(message) => event.0@ == "pkce-login-error"@ && event.1 == Some(message),
        },
{
    match result {
        Ok(_) => ("pkce-login-success", None),
        Err(message) => ("pkce-login-error", Some(message.clone())),
    }
}

// ---------------------------------------------------------------------------
// Laws
// ---------------------------------------------------------------------------

/// The notice was shown between these settings.
pub open spec fn shows_notice(before: Settings, after: Settings) -> bool {
    notice_is_due(before) && after == (Settings {
        legacy_auth_notice_count: (before.legacy_auth_notice_count + 1) as u8,
        ..before
    })
}

/// How often the notice was shown over a history of the settings.
pub open spec fn notices_shown(history: Seq<Settings>) -> nat
    decreases history.len(),
{
    if history.len() < 2 {
        0
    } else {
        let now: nat = if shows_notice(history[history.len() - 2], history.last()) {
            1
        } else {
            0
        };
        notices_shown(history.drop_last()) + now
    }
}

/// The count of notices after a change of the settings: one more where the notice was
/// shown, and five at most then; else the same.
proof fn lemma_notice_count(before: Settings, after: Settings)
    requires
        shows_notice(before, after) || after.legacy_auth_notice_count
            == before.legacy_auth_notice_count,
    ensures
        shows_notice(before, after) ==> after.legacy_auth_notice_count
            == before.legacy_auth_notice_count + 1 && after.legacy_auth_notice_count <= 5,
        !shows_notice(before, after) ==> after.legacy_auth_notice_count
            == before.legacy_auth_notice_count,
{
}

/// In this history the settings change by showing the notice, or by anything that
/// leaves its count alone.
pub open spec fn is_notice_history(history: Seq<Settings>) -> bool {
    forall|i: int|
        0 < i < history.len() ==> shows_notice(history[i - 1], #[trigger] history[i])
            || history[i].legacy_auth_notice_count == history[i - 1].legacy_auth_notice_count
}

/// The notice is shown five times at most: over any history in which the settings
/// change by showing it, or by anything that leaves its count alone, it is shown as
/// often as its count goes up, and the count stops at five.
#[verifier::spinoff_prover]
pub proof fn law_notice_is_shown_five_times_at_most(history: Seq<Settings>)
    requires
        history.len() > 0,
        is_notice_history(history),
    ensures
        notices_shown(history) == history.last().legacy_auth_notice_count
            - history[0].legacy_auth_notice_count,
        notices_shown(history) <= 5,
        history.last().legacy_auth_notice_count <= 5 || notices_shown(history) == 0,
    decreases history.len(),
{
    if history.len() >= 2 {
        let rest = history.drop_last();
        let n = history.len() as int;
        assert(is_notice_history(rest)) by {
            assert forall|i: int| 0 < i < rest.len() implies shows_notice(
                rest[i - 1],
                #[trigger] rest[i],
            ) || rest[i].legacy_auth_notice_count == rest[i - 1].legacy_auth_notice_count by {
                assert(rest[i] == history[i]);
                assert(rest[i - 1] == history[i - 1]);
            }
        }
        law_notice_is_shown_five_times_at_most(rest);
        assert(rest.last() == history[n - 2]);
        assert(rest[0] == history[0]);
        assert(history.last() == history[n - 1]);
        lemma_notice_count(history[n - 2], history[n - 1]);
    }
}

/// Neither a login nor a logout touches the count of notices: it never resets.
pub proof fn law_notice_count_never_resets(before: Settings, after: Settings, tokens: AuthTokens)
    requires
        keeps_all_but_login(before, after, tokens) || after == (Settings {
            auth_tokens: None,
            last_track_id: None,
            scrobble: ScrobbleSettings::none(),
            ..before
        }),
    ensures
        after.legacy_auth_notice_count == before.legacy_auth_notice_count,
{
}

/// The login page never sees embedded credentials: what it gets is empty or no
/// embedded pair.
pub proof fn law_embedded_credentials_are_never_returned(
    stored: Option<Settings>,
    config: EmbeddedConfig,
)
    ensures
        ({
            let (id, secret) = saved_credentials(stored, config);
            ||| id.len() == 0 && secret.len() == 0
            ||| !config.is_device_pair(id, secret) && !config.is_pkce_pair(id, secret)
        }),
{
}

/// A device-code login is refreshed with the credentials that it was made with.
pub proof fn law_device_login_refreshes_with_its_credentials(
    after: Settings,
    client_id: Seq<char>,
    client_secret: Seq<char>,
    config: EmbeddedConfig,
)
    requires
        client_id.len() > 0,
        after.auth_method is LoginCode,
        keeps_credentials(
            after,
            client_id,
            client_secret,
            config.is_device_pair(client_id, client_secret),
        ),
    ensures
        resolved(after, config) == (client_id, client_secret),
{
}

/// An imported session is refreshed with the credentials that it was imported with,
/// unless they are the embedded device-code pair, which is not stored.
pub proof fn law_import_refreshes_with_its_credentials(
    before: Settings,
    after: Settings,
    client_id: String,
    client_secret: String,
    config: EmbeddedConfig,
)
    requires
        client_id@.len() > 0,
        !config.is_device_pair(client_id@, client_secret@),
        keeps_imported(before, after, client_id, client_secret, config),
    ensures
        resolved(after, config) == (client_id@, client_secret@),
{
}

/// A PKCE login is refreshed with the credentials that it was made with, unless it
/// was made with the embedded device-code pair.
pub proof fn law_pkce_login_refreshes_with_its_credentials(
    after: Settings,
    client_id: Seq<char>,
    client_secret: Seq<char>,
    config: EmbeddedConfig,
)
    requires
        client_id.len() > 0,
        !config.is_device_pair(client_id, client_secret),
        after.auth_method is Pkce,
        keeps_credentials(
            after,
            client_id,
            client_secret,
            config.is_pkce_pair(client_id, client_secret),
        ),
    ensures
        resolved(after, config) == (client_id, client_secret),
{
}

/// A login with the embedded PKCE credentials is refreshed with them.
pub proof fn law_embedded_login_refreshes_with_embedded_credentials(
    after: Settings,
    config: EmbeddedConfig,
)
    requires
        config.has_pkce_keys,
        after.auth_method is Pkce,
        after.client_id@.len() == 0,
    ensures
        resolved(after, config) == (config.stream_key_c@, config.stream_key_d@),
{
}

/// The settings of a logout leave nobody signed in, and keep the credentials for the
/// next login.
pub proof fn law_logout_keeps_credentials(before: Settings, after: Settings, config: EmbeddedConfig)
    requires
        after == (Settings {
            auth_tokens: None,
            last_track_id: None,
            scrobble: ScrobbleSettings::none(),
            ..before
        }),
    ensures
        after.auth_tokens is None,
        resolved(after, config) == resolved(before, config),
        saved_credentials(Some(after), config) == saved_credentials(Some(before), config),
        !notice_is_due(after),
{
}

/// Every verifier is fit for PKCE: 43 characters, each a letter, a digit, `-` or `_`.
pub proof fn law_verifiers_are_well_formed(
    params: PkceAuthParams,
    client_id: Seq<char>,
)
    requires
        starts_some_login(params, client_id),
    ensures
        params.code_verifier@.len() == 43,
        forall|i: int|
            0 <= i < 43 ==> {
                let c = #[trigger] params.code_verifier@[i];
                ||| 'A' <= c <= 'Z'
                ||| 'a' <= c <= 'z'
                ||| '0' <= c <= '9'
                ||| c == '-'
                ||| c == '_'
            },
        params.client_unique_key@.len() == 16,
{
    let (bytes, number) = choose|bytes: Seq<u8>, number: u64|
        bytes.len() == 32 && #[trigger] starts_login(params, client_id, bytes, number);
    reveal_with_fuel(text::hex, 17);
    assert forall|i: int| 0 <= i < 43 implies {
        let c = #[trigger] params.code_verifier@[i];
        ||| 'A' <= c <= 'Z'
        ||| 'a' <= c <= 'z'
        ||| '0' <= c <= '9'
        ||| c == '-'
        ||| c == '_'
    } by {
        encoding::lemma_sextet_range(bytes, i);
    }
}

/// A cancelled login is told apart from one that came to its redirect: what was
/// parked is there until the redirect, when closing the window cancels, and gone
/// after it, when closing the window does not. The code is exchanged with what was
/// parked for it.
pub proof fn law_a_login_comes_back_or_is_cancelled(
    step: LoginStep,
    url: UrlView,
    parked: PendingPkce,
    config: EmbeddedConfig,
)
    requires
        is_step(step, url, Some(parked), config),
    ensures
        pending_after(url, Some(parked)) is Some <==> step is Browse,
        is_redirect(url) && first_value(url.query, "code"@) is Some <==> step is Exchange,
        step matches LoginStep::Exchange(exchange) ==> exchange.code_verifier
            == parked.code_verifier && exchange.client_unique_key == parked.client_unique_key,
{
}

/// A login changes who is signed in, how and with which credentials, and nothing else that
/// is kept.
pub proof fn law_a_login_changes_the_login_alone(
    before: Settings,
    after: Settings,
    tokens: AuthTokens,
)
    requires
        keeps_all_but_login(before, after, tokens),
    ensures
        after.auth_tokens == Some(tokens),
        after.volume == before.volume,
        after.last_track_id == before.last_track_id,
        after.minimize_to_tray == before.minimize_to_tray,
        after.decorations == before.decorations,
        after.titlebar_migration_v1 == before.titlebar_migration_v1,
        after.volume_normalization == before.volume_normalization,
        after.exclusive_mode == before.exclusive_mode,
        after.exclusive_device == before.exclusive_device,
        after.bit_perfect == before.bit_perfect,
        after.gapless == before.gapless,
        after.max_quality == before.max_quality,
        after.scrobble == before.scrobble,
        after.proxy == before.proxy,
        after.discord_rpc == before.discord_rpc,
        after.discord_status_text == before.discord_status_text,
        after.legacy_auth_notice_count == before.legacy_auth_notice_count,
        after.mcp_enabled == before.mcp_enabled,
        after.mcp_port == before.mcp_port,
        after.mcp_token == before.mcp_token,
        after.overlay_enabled == before.overlay_enabled,
        after.overlay_port == before.overlay_port,
        after.overlay_host == before.overlay_host,
        after.sonos_manual_ips == before.sonos_manual_ips,
        after.sonos_last_group_uuid == before.sonos_last_group_uuid,
        after.report_plays == before.report_plays,
{
}

/// A saved session goes on with the user's own credentials where there are any, whatever the
/// sign-in method; else with the embedded pair of that method, the PKCE pair only where the
/// build has one.
pub proof fn law_own_credentials_come_first(settings: Settings, config: EmbeddedConfig)
    ensures
        settings.client_id@.len() > 0 ==> resolved(settings, config) == (
            settings.client_id@,
            settings.client_secret@,
        ),
        settings.client_id@.len() == 0 && settings.auth_method is Pkce && config.has_pkce_keys
            ==> resolved(settings, config) == (config.stream_key_c@, config.stream_key_d@),
        settings.client_id@.len() == 0 && !(settings.auth_method is Pkce && config.has_pkce_keys)
            ==> resolved(settings, config) == (config.stream_key_a@, config.stream_key_b@),
{
}

/// Credentials are the embedded ones only where the build has them, and both the id and the
/// secret are theirs.
pub proof fn law_embedded_pairs_match_in_both_parts(
    config: EmbeddedConfig,
    id: Seq<char>,
    secret: Seq<char>,
)
    ensures
        config.is_device_pair(id, secret) <==> config.has_stream_keys && id == config.stream_key_a@
            && secret == config.stream_key_b@,
        config.is_pkce_pair(id, secret) <==> config.has_pkce_keys && id == config.stream_key_c@
            && secret == config.stream_key_d@,
{
}

/// The login page gets back what the user saved, unless that is an embedded pair.
pub proof fn law_own_credentials_are_shown(settings: Settings, config: EmbeddedConfig)
    ensures
        !config.is_device_pair(settings.client_id@, settings.client_secret@)
            && !config.is_pkce_pair(settings.client_id@, settings.client_secret@)
            ==> saved_credentials(Some(settings), config) == (
            settings.client_id@,
            settings.client_secret@,
        ),
        saved_credentials(None, config).0.len() == 0,
        saved_credentials(None, config).1.len() == 0,
{
}

/// An import keeps the refresh token whatever happens, uses an access token for a day, and
/// without one starts from tokens that are worth nothing until they are refreshed.
pub proof fn law_an_import_keeps_the_refresh_token(
    plan: ImportPlan,
    refresh_token: String,
    access_token: Option<String>,
)
    requires
        is_import_plan(plan, refresh_token, access_token),
    ensures
        plan is Verify <==> (access_token matches Some(access) && access@.len() > 0),
        plan matches ImportPlan::Verify(tokens) ==> tokens.refresh_token == refresh_token
            && access_token == Some(tokens.access_token) && tokens.expires_in == 86400
            && tokens.token_type@ == "Bearer"@ && tokens.user_id is None,
        plan matches ImportPlan::Refresh(tokens) ==> tokens.refresh_token == refresh_token
            && tokens.access_token@.len() == 0 && tokens.expires_in == 0 && tokens.token_type@
            == "Bearer"@ && tokens.user_id is None,
{
}

/// The notice is for users who are signed in by device code and have seen it fewer than
/// five times, and for no others.
pub proof fn law_the_notice_is_for_legacy_users(settings: Settings)
    ensures
        notice_is_due(settings) <==> settings.auth_tokens is Some && settings.auth_method
            is LoginCode && settings.legacy_auth_notice_count < 5,
{
}

/// The page where the user comes back is at TIDAL's own host, under one path, whatever its
/// query; the code is the first value of that name.
pub proof fn law_the_redirect_is_told_by_host_and_path(
    host: Seq<char>,
    path: Seq<char>,
    query: Seq<(Seq<char>, Seq<char>)>,
    code: Seq<char>,
)
    ensures
        is_redirect(UrlView { host: Some(host), path, query }) <==> host == "tidal.com"@ && path
            == "/android/login/auth"@,
        !is_redirect(UrlView { host: None, path, query }),
        first_value(seq![("code"@, code)] + query, "code"@) == Some(code),
        first_value(query, "code"@) is None ==> forall|i: int|
            0 <= i < query.len() ==> (#[trigger] query[i]).0 != "code"@,
{
    let more = seq![("code"@, code)] + query;
    assert(more[0] == ("code"@, code));
    if first_value(query, "code"@) is None {
        lemma_first_value_none(query, "code"@);
    }
}

/// Where a query has no value of a name, it does not hold the name.
proof fn lemma_first_value_none(query: Seq<(Seq<char>, Seq<char>)>, key: Seq<char>)
    requires
        first_value(query, key) is None,
    ensures
        forall|i: int| 0 <= i < query.len() ==> (#[trigger] query[i]).0 != key,
    decreases query.len(),
{
    if query.len() > 0 {
        let rest = query.drop_first();
        lemma_first_value_none(rest, key);
        assert forall|i: int| 0 <= i < query.len() implies (#[trigger] query[i]).0 != key by {
            if i > 0 {
                assert(query[i] == rest[i - 1]);
            }
        }
    }
}

/// A login sends the user to TIDAL with the client's id, the unique key of the login and
/// the S256 challenge of the very verifier that is kept for the exchange.
pub proof fn law_a_login_is_sent_with_its_challenge(
    params: PkceAuthParams,
    client_id: Seq<char>,
    bytes: Seq<u8>,
    number: u64,
)
    requires
        starts_login(params, client_id, bytes, number),
    ensures
        params.authorize_url@
            == "https://login.tidal.com/authorize?response_type=code&redirect_uri=https%3A%2F%2Ftidal.com%2Fandroid%2Flogin%2Fauth&client_id="@
            + client_id + "&lang=EN&appMode=android&client_unique_key="@ + params.client_unique_key@
            + "&code_challenge="@ + encoding::base64url(
            encoding::sha256(encode_utf8(params.code_verifier@)),
        ) + "&code_challenge_method=S256&restrict_signup=true"@,
        params.code_verifier@ == encoding::base64url(bytes),
        text::hex_value(params.client_unique_key@) == number,
{
    text::law_hex_reads_back(number as nat, 16);
    reveal_with_fuel(text::fits_hex, 17);
    assert(text::fits_hex(number as nat, 16));
}

/// A logout takes the tokens, the last track and every scrobbling service, and keeps
/// everything else.
pub proof fn law_a_logout_keeps_everything_else(settings: Settings)
    ensures
        logged_out(settings).auth_tokens is None,
        logged_out(settings).last_track_id is None,
        logged_out(settings).scrobble.lastfm is None,
        logged_out(settings).scrobble.librefm is None,
        logged_out(settings).scrobble.listenbrainz is None,
        logged_out(settings).volume == settings.volume,
        logged_out(settings).client_id == settings.client_id,
        logged_out(settings).client_secret == settings.client_secret,
        logged_out(settings).auth_method == settings.auth_method,
        logged_out(settings).minimize_to_tray == settings.minimize_to_tray,
        logged_out(settings).decorations == settings.decorations,
        logged_out(settings).titlebar_migration_v1 == settings.titlebar_migration_v1,
        logged_out(settings).volume_normalization == settings.volume_normalization,
        logged_out(settings).exclusive_mode == settings.exclusive_mode,
        logged_out(settings).exclusive_device == settings.exclusive_device,
        logged_out(settings).bit_perfect == settings.bit_perfect,
        logged_out(settings).gapless == settings.gapless,
        logged_out(settings).max_quality == settings.max_quality,
        logged_out(settings).proxy == settings.proxy,
        logged_out(settings).discord_rpc == settings.discord_rpc,
        logged_out(settings).discord_status_text == settings.discord_status_text,
        logged_out(settings).legacy_auth_notice_count == settings.legacy_auth_notice_count,
        logged_out(settings).mcp_enabled == settings.mcp_enabled,
        logged_out(settings).mcp_port == settings.mcp_port,
        logged_out(settings).mcp_token == settings.mcp_token,
        logged_out(settings).overlay_enabled == settings.overlay_enabled,
        logged_out(settings).overlay_port == settings.overlay_port,
        logged_out(settings).overlay_host == settings.overlay_host,
        logged_out(settings).sonos_manual_ips == settings.sonos_manual_ips,
        logged_out(settings).sonos_last_group_uuid == settings.sonos_last_group_uuid,
        logged_out(settings).report_plays == settings.report_plays,
{
}

/// The code of a login is exchanged with the verifier whose challenge the user was sent with,
/// and under the unique key that they were sent with.
pub proof fn law_the_exchange_answers_the_challenge(
    params: PkceAuthParams,
    client_id: Seq<char>,
    bytes: Seq<u8>,
    number: u64,
    url: UrlView,
    config: EmbeddedConfig,
    exchange: PkceExchange,
)
    requires
        starts_login(params, client_id, bytes, number),
        is_step(LoginStep::Exchange(exchange), url, Some(pending_of(params)), config),
    ensures
        params.authorize_url@
            == "https://login.tidal.com/authorize?response_type=code&redirect_uri=https%3A%2F%2Ftidal.com%2Fandroid%2Flogin%2Fauth&client_id="@
            + client_id + "&lang=EN&appMode=android&client_unique_key="@
            + exchange.client_unique_key@ + "&code_challenge="@ + encoding::base64url(
            encoding::sha256(encode_utf8(exchange.code_verifier@)),
        ) + "&code_challenge_method=S256&restrict_signup=true"@,
        first_value(url.query, "code"@) == Some(exchange.code@),
        exchange.client_id@ == config.stream_key_c@,
        exchange.client_secret@ == config.stream_key_d@,
{
}

} // verus!
