//! What is kept between runs.

use crate::defaults;
use crate::text;
use vstd::prelude::*;

verus! {

/// The tokens of a signed-in account.
#[derive(Debug)]
pub struct AuthTokens {
    pub access_token: String,
    pub refresh_token: String,
    pub expires_in: u64,
    pub token_type: String,
    pub user_id: Option<u64>,
}

impl Clone for AuthTokens {
    fn clone(&self) -> (copy: Self)
        ensures
            copy == *self,
    {
        AuthTokens {
            access_token: self.access_token.clone(),
            refresh_token: self.refresh_token.clone(),
            expires_in: self.expires_in,
            token_type: self.token_type.clone(),
            user_id: self.user_id,
        }
    }
}

#[derive(Debug)]
pub struct LastfmCredentials {
    pub session_key: String,
    pub username: String,
}

impl Clone for LastfmCredentials {
    fn clone(&self) -> (copy: Self)
        ensures
            copy == *self,
    {
        LastfmCredentials {
            session_key: self.session_key.clone(),
            username: self.username.clone(),
        }
    }
}

impl Default for LastfmCredentials {
    fn default() -> (creds: Self)
        ensures
            creds.session_key@ == Seq::<char>::empty(),
            creds.username@ == Seq::<char>::empty(),
    {
        LastfmCredentials { session_key: text::empty(), username: text::empty() }
    }
}

#[derive(Debug)]
pub struct ListenBrainzCredentials {
    pub token: String,
    pub username: String,
}

impl Clone for ListenBrainzCredentials {
    fn clone(&self) -> (copy: Self)
        ensures
            copy == *self,
    {
        ListenBrainzCredentials { token: self.token.clone(), username: self.username.clone() }
    }
}

impl Default for ListenBrainzCredentials {
    fn default() -> (creds: Self)
        ensures
            creds.token@ == Seq::<char>::empty(),
            creds.username@ == Seq::<char>::empty(),
    {
        ListenBrainzCredentials { token: text::empty(), username: text::empty() }
    }
}

#[derive(Debug)]
pub struct ScrobbleSettings {
    pub lastfm: Option<LastfmCredentials>,
    pub librefm: Option<LastfmCredentials>,
    pub listenbrainz: Option<ListenBrainzCredentials>,
}

impl ScrobbleSettings {
    /// No service is connected.
    pub open spec fn none() -> ScrobbleSettings {
        ScrobbleSettings { lastfm: None, librefm: None, listenbrainz: None }
    }
}

impl Default for ScrobbleSettings {
    fn default() -> (scrobble: Self)
        ensures
            scrobble == Self::none(),
    {
        ScrobbleSettings { lastfm: None, librefm: None, listenbrainz: None }
    }
}

/// Tracks which embedded credential pair the saved tokens belong to, so that
/// refresh-token requests use the matching client id and secret. Only relevant
/// when the user has not provided custom credentials.
#[derive(Clone, Copy, Debug, PartialEq, Eq, Structural)]
pub enum AuthMethod {
    LoginCode,
    Pkce,
}

impl Default for AuthMethod {
    fn default() -> (method: Self)
        ensures
            method is LoginCode,
    {
        AuthMethod::LoginCode
    }
}

#[derive(Clone, Copy, Debug, PartialEq, Eq, Structural)]
pub enum ProxyType {
    Http,
    Socks5,
}

impl Default for ProxyType {
    fn default() -> (kind: Self)
        ensures
            kind is Http,
    {
        ProxyType::Http
    }
}

#[derive(Debug)]
pub struct ProxySettings {
    pub enabled: bool,
    pub proxy_type: ProxyType,
    pub host: String,
    pub port: u16,
    pub username: Option<String>,
    pub password: Option<String>,
}

impl ProxySettings {
    /// No proxy.
    pub open spec fn is_default(self) -> bool {
        &&& !self.enabled
        &&& self.proxy_type is Http
        &&& self.host@ == Seq::<char>::empty()
        &&& self.port == 0
        &&& self.username is None
        &&& self.password is None
    }
}

impl Clone for ProxySettings {
    fn clone(&self) -> (copy: Self)
        ensures
            copy == *self,
    {
        ProxySettings {
            enabled: self.enabled,
            proxy_type: self.proxy_type,
            host: self.host.clone(),
            port: self.port,
            username: text::copied(&self.username),
            password: text::copied(&self.password),
        }
    }
}

impl Default for ProxySettings {
    fn default() -> (proxy: Self)
        ensures
            proxy.is_default(),
    {
        ProxySettings {
            enabled: false,
            proxy_type: ProxyType::Http,
            host: text::empty(),
            port: 0,
            username: None,
            password: None,
        }
    }
}

#[derive(Debug)]
pub struct Settings {
    pub auth_tokens: Option<AuthTokens>,
    /// The volume, as the bits of a 32-bit number.
    pub volume: u32,
    pub last_track_id: Option<u64>,
    pub client_id: String,
    pub client_secret: String,
    /// Which embedded credential pair to use for refresh when `client_id` is empty.
    /// `LoginCode` where it was never stored.
    pub auth_method: AuthMethod,
    pub minimize_to_tray: bool,
    pub decorations: bool,
    /// One-shot flag: was the user migrated from native chrome to the custom
    /// titlebar? `false` (or missing) on existing installs triggers a silent flip of
    /// `decorations` to `false` at startup.
    pub titlebar_migration_v1: bool,
    pub volume_normalization: bool,
    pub exclusive_mode: bool,
    pub exclusive_device: Option<String>,
    pub bit_perfect: bool,
    pub gapless: bool,
    pub max_quality: String,
    pub scrobble: ScrobbleSettings,
    pub proxy: ProxySettings,
    pub discord_rpc: bool,
    pub discord_status_text: String,
    /// How many times the "legacy sign-in" notice was shown to a user still on the
    /// device-code (`LoginCode`) auth method. Caps at 5; never resets.
    pub legacy_auth_notice_count: u8,
    pub mcp_enabled: bool,
    pub mcp_port: u16,
    /// Persistent UUID token for the MCP URL path. Empty means "not yet generated".
    pub mcp_token: String,
    pub overlay_enabled: bool,
    pub overlay_port: u16,
    pub overlay_host: String,
    /// User-pinned player IPs for networks where discovery can't see the speakers
    /// (multicast filtering, VLANs, sandboxes).
    pub sonos_manual_ips: Vec<String>,
    /// Coordinator UUID of the last group that was cast to (startup reattach).
    pub sonos_last_group_uuid: Option<String>,
    /// Report plays to TIDAL (Recently Played). Opt-in, off by default.
    pub report_plays: bool,
}

impl Settings {
    /// The settings of a fresh install.
    pub open spec fn is_default(self) -> bool {
        &&& self.auth_tokens is None
        &&& self.volume == defaults::FULL_VOLUME
        &&& self.last_track_id is None
        &&& self.client_id@ == Seq::<char>::empty()
        &&& self.client_secret@ == Seq::<char>::empty()
        &&& self.auth_method is LoginCode
        &&& !self.minimize_to_tray
        &&& !self.decorations
        &&& self.titlebar_migration_v1
        &&& !self.volume_normalization
        &&& !self.exclusive_mode
        &&& self.exclusive_device is None
        &&& !self.bit_perfect
        &&& self.gapless
        &&& self.max_quality@ == "HI_RES_LOSSLESS"@
        &&& self.scrobble == ScrobbleSettings::none()
        &&& self.proxy.is_default()
        &&& self.discord_rpc
        &&& self.discord_status_text@ == Seq::<char>::empty()
        &&& self.legacy_auth_notice_count == 0
        &&& !self.mcp_enabled
        &&& self.mcp_port == 5577
        &&& self.mcp_token@ == Seq::<char>::empty()
        &&& !self.overlay_enabled
        &&& self.overlay_port == 5578
        &&& self.overlay_host@ == "127.0.0.1"@
        &&& self.sonos_manual_ips@.len() == 0
        &&& self.sonos_last_group_uuid is None
        &&& !self.report_plays
    }

    /// The settings once the one-shot titlebar migration is done.
    pub open spec fn titlebar_migrated(self) -> Settings {
        if self.titlebar_migration_v1 {
            self
        } else {
            Settings { decorations: false, titlebar_migration_v1: true, ..self }
        }
    }

    /// One-shot custom-titlebar migration: existing installs had native chrome;
    /// they are flipped silently to the custom titlebar. The toggle in the settings
    /// remains as an escape hatch. Returns whether the settings are to be stored.
    pub fn migrate_titlebar(&mut self) -> (changed: bool)
        ensures
            *final(self) == old(self).titlebar_migrated(),
            changed == !old(self).titlebar_migration_v1,
    {
        if self.titlebar_migration_v1 {
            return false;
        }
        self.decorations = false;
        self.titlebar_migration_v1 = true;
        true
    }

    /// A track was played: it is the last one now.
    pub fn remember_track(&mut self, track_id: u64)
        ensures
            *final(self) == (Settings { last_track_id: Some(track_id), ..*old(self) }),
    {
        self.last_track_id = Some(track_id);
    }

    /// The volume changed.
    pub fn remember_volume(&mut self, bits: u32)
        ensures
            *final(self) == (Settings { volume: bits, ..*old(self) }),
    {
        self.volume = bits;
    }
}

impl Default for Settings {
    fn default() -> (settings: Self)
        ensures
            settings.is_default(),
            settings.auth_tokens is None && settings.last_track_id is None,
            settings.client_id@.len() == 0 && settings.client_secret@.len() == 0,
            settings.auth_method is LoginCode && settings.legacy_auth_notice_count == 0,
            !settings.minimize_to_tray && !settings.decorations && settings.titlebar_migration_v1,
            !settings.volume_normalization && !settings.exclusive_mode && !settings.bit_perfect,
            settings.exclusive_device is None && settings.gapless,
            settings.max_quality@ == "HI_RES_LOSSLESS"@ && settings.volume == 0x3f80_0000,
            settings.scrobble.lastfm is None && settings.scrobble.librefm is None,
            settings.scrobble.listenbrainz is None && !settings.proxy.enabled,
            settings.discord_rpc && settings.discord_status_text@.len() == 0,
            !settings.mcp_enabled && settings.mcp_port == 5577 && settings.mcp_token@.len() == 0,
            !settings.overlay_enabled && settings.overlay_port == 5578,
            settings.overlay_host@ == "127.0.0.1"@,
            settings.sonos_manual_ips@.len() == 0 && settings.sonos_last_group_uuid is None,
            !settings.report_plays,
    {
        Settings {
            auth_tokens: None,
            volume: defaults::volume(),
            last_track_id: None,
            client_id: text::empty(),
            client_secret: text::empty(),
            auth_method: AuthMethod::LoginCode,
            minimize_to_tray: false,
            decorations: false,
            titlebar_migration_v1: true,
            volume_normalization: false,
            exclusive_mode: false,
            exclusive_device: None,
            bit_perfect: false,
            gapless: defaults::yes(),
            max_quality: defaults::max_quality(),
            scrobble: ScrobbleSettings { lastfm: None, librefm: None, listenbrainz: None },
            proxy: ProxySettings::default(),
            discord_rpc: defaults::yes(),
            discord_status_text: text::empty(),
            legacy_auth_notice_count: 0,
            mcp_enabled: defaults::mcp_enabled(),
            mcp_port: defaults::mcp_port(),
            mcp_token: text::empty(),
            overlay_enabled: defaults::overlay_enabled(),
            overlay_port: defaults::overlay_port(),
            overlay_host: defaults::overlay_host(),
            sonos_manual_ips: Vec::new(),
            sonos_last_group_uuid: None,
            report_plays: false,
        }
    }
}

/// `settings` are the stored ones, or those of a fresh install where none could be
/// loaded.
pub open spec fn is_loaded(settings: Settings, stored: Option<Settings>) -> bool {
    match stored {
        Some(stored) => settings == stored,
        None => settings.is_default(),
    }
}

/// The stored settings, or those of a fresh install.
pub fn or_default(stored: Option<Settings>) -> (settings: Settings)
    ensures
        is_loaded(settings, stored),
{
    match stored {
        Some(settings) => settings,
        None => Settings::default(),
    }
}

/// The titlebar migration is done once: done again, it changes nothing, so native
/// chrome that the user turns on afterwards stays.
pub proof fn law_titlebar_migration_is_one_shot(settings: Settings, decorations: bool)
    ensures
        settings.titlebar_migrated().titlebar_migrated() == settings.titlebar_migrated(),
        (Settings { decorations, ..settings.titlebar_migrated() }).titlebar_migrated().decorations
            == decorations,
{
}

/// The titlebar migration turns native chrome off where it was not done before, and
/// touches nothing else.
pub proof fn law_titlebar_migration_touches_the_titlebar_alone(settings: Settings)
    ensures
        settings.titlebar_migrated().titlebar_migration_v1,
        !settings.titlebar_migration_v1 ==> !settings.titlebar_migrated().decorations,
        settings.titlebar_migration_v1 ==> settings.titlebar_migrated().decorations
            == settings.decorations,
        settings.titlebar_migrated().auth_tokens == settings.auth_tokens,
        settings.titlebar_migrated().volume == settings.volume,
        settings.titlebar_migrated().last_track_id == settings.last_track_id,
        settings.titlebar_migrated().client_id == settings.client_id,
        settings.titlebar_migrated().client_secret == settings.client_secret,
        settings.titlebar_migrated().auth_method == settings.auth_method,
        settings.titlebar_migrated().minimize_to_tray == settings.minimize_to_tray,
        settings.titlebar_migrated().volume_normalization == settings.volume_normalization,
        settings.titlebar_migrated().exclusive_mode == settings.exclusive_mode,
        settings.titlebar_migrated().exclusive_device == settings.exclusive_device,
        settings.titlebar_migrated().bit_perfect == settings.bit_perfect,
        settings.titlebar_migrated().gapless == settings.gapless,
        settings.titlebar_migrated().max_quality == settings.max_quality,
        settings.titlebar_migrated().scrobble == settings.scrobble,
        settings.titlebar_migrated().proxy == settings.proxy,
        settings.titlebar_migrated().discord_rpc == settings.discord_rpc,
        settings.titlebar_migrated().discord_status_text == settings.discord_status_text,
        settings.titlebar_migrated().legacy_auth_notice_count == settings.legacy_auth_notice_count,
        settings.titlebar_migrated().mcp_enabled == settings.mcp_enabled,
        settings.titlebar_migrated().mcp_port == settings.mcp_port,
        settings.titlebar_migrated().mcp_token == settings.mcp_token,
        settings.titlebar_migrated().overlay_enabled == settings.overlay_enabled,
        settings.titlebar_migrated().overlay_port == settings.overlay_port,
        settings.titlebar_migrated().overlay_host == settings.overlay_host,
        settings.titlebar_migrated().sonos_manual_ips == settings.sonos_manual_ips,
        settings.titlebar_migrated().sonos_last_group_uuid == settings.sonos_last_group_uuid,
        settings.titlebar_migrated().report_plays == settings.report_plays,
{
}

/// A fresh install is quiet and private: nobody is signed in, no service is connected or
/// reported to, no server runs and nothing is taken over; only gapless playback in the
/// highest quality and the status on Discord are on.
pub proof fn law_a_fresh_install_is_quiet(settings: Settings)
    requires
        settings.is_default(),
    ensures
        settings.auth_tokens is None && settings.last_track_id is None,
        settings.client_id@.len() == 0 && settings.client_secret@.len() == 0,
        settings.auth_method is LoginCode && settings.legacy_auth_notice_count == 0,
        settings.scrobble.lastfm is None && settings.scrobble.librefm is None,
        settings.scrobble.listenbrainz is None && !settings.report_plays,
        !settings.mcp_enabled && !settings.overlay_enabled && !settings.proxy.enabled,
        settings.mcp_token@.len() == 0 && settings.mcp_port == 5577,
        settings.overlay_port == 5578 && settings.overlay_host@ == "127.0.0.1"@,
        settings.mcp_port != settings.overlay_port,
        settings.proxy.host@.len() == 0 && settings.proxy.port == 0,
        settings.proxy.username is None && settings.proxy.password is None,
        !settings.minimize_to_tray && !settings.decorations && !settings.volume_normalization,
        !settings.exclusive_mode && !settings.bit_perfect && settings.exclusive_device is None,
        settings.gapless && settings.discord_rpc && settings.volume == 0x3f80_0000,
        settings.max_quality@ == "HI_RES_LOSSLESS"@,
        settings.discord_status_text@.len() == 0,
        settings.sonos_manual_ips@.len() == 0 && settings.sonos_last_group_uuid is None,
        settings.titlebar_migrated() == settings,
{
}

} // verus!
