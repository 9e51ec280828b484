//! The state of the running player, and how it starts.

use crate::defaults;
use crate::encoding;
use crate::json::{self, Leaf};
use crate::settings::{ProxySettings, Settings};
use crate::text;
use crate::tidal_report::queue::{self, OutboxFile};
use crate::tidal_report::reporter::TidalReporter;
use vstd::prelude::*;
use vstd::string::*;
use vstd::utf8::*;

verus! {

/// The bits of the 64-bit number that stands for "no data".
pub const NO_DATA: u64 = 0x7ff8_0000_0000_0000;

/// What the player holds while it runs.
pub struct AppState {
    pub minimize_to_tray: bool,
    pub decorations: bool,
    pub volume_normalization: bool,
    pub exclusive_mode: bool,
    pub bit_perfect: bool,
    pub gapless: bool,
    pub max_quality: String,
    pub exclusive_device: Option<String>,
    /// Current track's selected replay gain (dB), as the bits of a 64-bit number.
    /// Album or track gain depending on playback context.
    pub last_replay_gain: u64,
    /// Current track's selected peak amplitude (linear), as the bits of a 64-bit
    /// number. Album or track peak depending on playback context.
    pub last_peak_amplitude: u64,
    pub tidal_reporter: TidalReporter,
}

impl AppState {
    /// The preferences are those that were saved; without saved settings only
    /// gapless playback is on, and the quality has no ceiling.
    pub open spec fn prefers(self, saved: Option<Settings>) -> bool {
        match saved {
            Some(s) => {
                &&& self.minimize_to_tray == s.minimize_to_tray
                &&& self.decorations == s.decorations
                &&& self.volume_normalization == s.volume_normalization
                &&& self.exclusive_mode == s.exclusive_mode
                &&& self.bit_perfect == s.bit_perfect
                &&& self.gapless == s.gapless
                &&& self.max_quality == s.max_quality
                &&& self.exclusive_device == s.exclusive_device
                &&& self.tidal_reporter.enabled == s.report_plays
            },
            None => {
                &&& !self.minimize_to_tray
                &&& !self.decorations
                &&& !self.volume_normalization
                &&& !self.exclusive_mode
                &&& !self.bit_perfect
                &&& self.gapless
                &&& self.max_quality@ == "HI_RES_LOSSLESS"@
                &&& self.exclusive_device is None
                &&& !self.tidal_reporter.enabled
            },
        }
    }

    /// Nothing was played yet, and the outbox is that of the file.
    pub open spec fn is_fresh(self, outbox: Option<queue::FileView>) -> bool {
        &&& self.last_replay_gain == NO_DATA
        &&& self.last_peak_amplitude == NO_DATA
        &&& self.tidal_reporter.current is None
        &&& self.tidal_reporter.pending_meta@.len() == 0
        &&& self.tidal_reporter.queue@ == queue::or_empty(queue::outbox_in(outbox))
        &&& queue::reads_outbox_back(outbox, self.tidal_reporter.queue@)
        &&& self.tidal_reporter.wf()
    }

    /// The state of a run, from the settings and the decrypted file of the outbox of play
    /// reports.
    pub fn new(saved: &Option<Settings>, outbox: Option<OutboxFile>) -> (state: Self)
        ensures
            state.prefers(*saved),
            state.is_fresh(queue::file_view(outbox)),
            saved matches Some(s) ==> {
                &&& state.minimize_to_tray == s.minimize_to_tray
                &&& state.decorations == s.decorations
                &&& state.volume_normalization == s.volume_normalization
                &&& state.exclusive_mode == s.exclusive_mode
                &&& state.bit_perfect == s.bit_perfect
                &&& state.gapless == s.gapless
                &&& state.max_quality == s.max_quality
                &&& state.exclusive_device == s.exclusive_device
                &&& state.tidal_reporter.enabled == s.report_plays
            },
            saved is None ==> {
                &&& !state.minimize_to_tray && !state.decorations
                &&& !state.volume_normalization
                &&& !state.exclusive_mode && !state.bit_perfect
                &&& state.gapless
                &&& state.exclusive_device is None
                &&& !state.tidal_reporter.enabled
            },
    {
        match saved {
            Some(s) => AppState {
                minimize_to_tray: s.minimize_to_tray,
                decorations: s.decorations,
                volume_normalization: s.volume_normalization,
                exclusive_mode: s.exclusive_mode,
                bit_perfect: s.bit_perfect,
                gapless: s.gapless,
                max_quality: s.max_quality.clone(),
                exclusive_device: text::copied(&s.exclusive_device),
                last_replay_gain: NO_DATA,
                last_peak_amplitude: NO_DATA,
                tidal_reporter: TidalReporter::new(outbox, s.report_plays),
            },
            None => AppState {
                minimize_to_tray: false,
                decorations: false,
                volume_normalization: false,
                exclusive_mode: false,
                bit_perfect: false,
                gapless: true,
                max_quality: defaults::max_quality(),
                exclusive_device: None,
                last_replay_gain: NO_DATA,
                last_peak_amplitude: NO_DATA,
                tidal_reporter: TidalReporter::new(outbox, false),
            },
        }
    }
}

/// The saved proxy; none without saved settings.
pub fn startup_proxy(saved: &Option<Settings>) -> (proxy: ProxySettings)
    ensures
        match *saved {
            Some(settings) => proxy == settings.proxy,
            None => proxy.is_default(),
        },
{
    match saved {
        Some(settings) => settings.proxy.clone(),
        None => ProxySettings::default(),
    }
}

/// What Discord is told at startup: the status text, and whether to connect.
pub fn startup_discord(saved: &Option<Settings>) -> (discord: (String, bool))
    ensures
        match *saved {
            Some(settings) => discord == (settings.discord_status_text, settings.discord_rpc),
            None => discord.0@ == Seq::<char>::empty() && discord.1,
        },
{
    match saved {
        Some(settings) => (settings.discord_status_text.clone(), settings.discord_rpc),
        None => (text::empty(), true),
    }
}

/// Eager migration: whether a settings file is to be stored again, encrypted. It is
/// if it could be read (`encrypted` tells what was found), was not encrypted, and
/// held settings.
pub fn needs_encrypting(encrypted: Option<bool>, saved: &Option<Settings>) -> (needs: bool)
    ensures
        needs == (encrypted == Some(false) && saved is Some),
{
    match encrypted {
        Some(encrypted) => !encrypted && saved.is_some(),
        None => false,
    }
}

/// How a run starts.
pub struct Startup {
    pub state: AppState,
    /// The settings of the run, once the titlebar is migrated.
    pub settings: Option<Settings>,
    /// Those settings are to be stored, encrypted.
    pub store: bool,
    pub proxy: ProxySettings,
    /// The status text for Discord, and whether to connect.
    pub discord: (String, bool),
}

/// The saved settings once the one-shot titlebar migration is done.
pub open spec fn migrated(saved: Option<Settings>) -> Option<Settings> {
    match saved {
        Some(settings) => Some(settings.titlebar_migrated()),
        None => None,
    }
}

/// Start a run from the saved settings, from what the settings file was found to be
/// (`encrypted`), and from the decrypted file of the outbox. The titlebar is migrated
/// first; the migrated settings are the ones that are stored, where the migration or a
/// file that was not encrypted asks for it, and the ones that everything starts from.
pub fn startup(
    saved: Option<Settings>,
    encrypted: Option<bool>,
    outbox: Option<OutboxFile>,
) -> (started: Startup)
    ensures
        started.settings == migrated(saved),
        started.store == (saved matches Some(settings) && (!settings.titlebar_migration_v1
            || encrypted == Some(false))),
        started.state.prefers(migrated(saved)),
        started.state.is_fresh(queue::file_view(outbox)),
        saved matches Some(s) ==> {
            &&& started.state.minimize_to_tray == s.minimize_to_tray
            &&& started.state.volume_normalization == s.volume_normalization
            &&& started.state.exclusive_mode == s.exclusive_mode
            &&& started.state.bit_perfect == s.bit_perfect
            &&& started.state.gapless == s.gapless
            &&& started.state.max_quality == s.max_quality
            &&& started.state.exclusive_device == s.exclusive_device
            &&& started.state.decorations == (s.titlebar_migration_v1 && s.decorations)
            &&& started.state.tidal_reporter.enabled == s.report_plays
            &&& started.proxy == s.proxy
            &&& started.discord.0 == s.discord_status_text
            &&& started.discord.1 == s.discord_rpc
        },
        match migrated(saved) {
            Some(settings) => {
                &&& started.proxy == settings.proxy
                &&& started.discord == (settings.discord_status_text, settings.discord_rpc)
            },
            None => {
                &&& started.proxy.is_default()
                &&& started.discord.0@ == Seq::<char>::empty() && started.discord.1
            },
        },
{
    let mut settings = saved;
    let mut changed: bool = false;
    if let Some(mut found) = settings.take() {
        changed = found.migrate_titlebar();
        settings = Some(found);
    }
    let store = changed || needs_encrypting(encrypted, &settings);
    let state = AppState::new(&settings, outbox);
    let proxy = startup_proxy(&settings);
    let discord = startup_discord(&settings);
    Startup { state, settings, store, proxy, discord }
}

/// What the audio thread is told at startup.
#[derive(Debug)]
pub struct StartupAudio {
    /// The exclusive mode and its device, where they are to be set.
    pub exclusive: Option<(bool, Option<String>)>,
    pub bit_perfect: bool,
    pub gapless: bool,
}

/// `audio` is the audio mode of a run with these preferences.
pub open spec fn is_audio_of(audio: StartupAudio, state: AppState) -> bool {
    &&& audio.exclusive == if state.exclusive_mode || state.bit_perfect {
        Some((state.exclusive_mode, state.exclusive_device))
    } else {
        None
    }
    &&& audio.bit_perfect == state.bit_perfect
    &&& audio.gapless == state.gapless
}

impl AppState {
    /// The saved audio mode, for the audio thread. Bit-perfect output sets the
    /// exclusive mode too, on or off.
    pub fn startup_audio(&self) -> (audio: StartupAudio)
        ensures
            audio.exclusive == if self.exclusive_mode || self.bit_perfect {
                Some((self.exclusive_mode, self.exclusive_device))
            } else {
                None
            },
            audio.bit_perfect == self.bit_perfect,
            audio.gapless == self.gapless,
            is_audio_of(audio, *self),
    {
        StartupAudio {
            exclusive: if self.exclusive_mode || self.bit_perfect {
                Some((self.exclusive_mode, text::copied(&self.exclusive_device)))
            } else {
                None
            },
            bit_perfect: self.bit_perfect,
            gapless: self.gapless,
        }
    }
}

// ---------------------------------------------------------------------------
// The next track of a gapless queue
// ---------------------------------------------------------------------------

/// The bits of a number; those of "no data" where there is none.
pub open spec fn bits_or_none(leaf: Option<json::LeafView>) -> u64 {
    match leaf {
        Some(json::LeafView::Number { float_bits: Some(bits), .. }) => bits,
        _ => NO_DATA,
    }
}

/// The replay gain and the peak amplitude that the members of a payload name.
pub open spec fn gains_in(members: Option<Seq<(Seq<char>, json::LeafView)>>) -> (u64, u64) {
    match members {
        Some(members) => (
            bits_or_none(json::member(members, "replayGain"@)),
            bits_or_none(json::member(members, "peakAmplitude"@)),
        ),
        None => (NO_DATA, NO_DATA),
    }
}

/// The bits of a number; those of "no data" where there is none.
fn leaf_bits(leaf: Option<&Leaf>) -> (bits: u64)
    ensures
        bits == match leaf {
            Some(leaf) => bits_or_none(Some(leaf@)),
            None => NO_DATA,
        },
{
    match leaf {
        Some(Leaf::Number { float_bits: Some(bits), .. }) => *bits,
        _ => NO_DATA,
    }
}

/// The members of an object, where there is one.
pub open spec fn leaves_if(members: Option<Vec<(String, Leaf)>>) -> Option<
    Seq<(Seq<char>, json::LeafView)>,
> {
    match members {
        Some(members) => Some(json::leaves_of(members@)),
        None => None,
    }
}

impl AppState {
    /// Only the gains may differ.
    pub open spec fn same_but_gains(self, other: AppState) -> bool {
        self == (AppState {
            last_replay_gain: self.last_replay_gain,
            last_peak_amplitude: self.last_peak_amplitude,
            ..other
        })
    }

    /// Store the replay gain and the peak amplitude of the track that plays now, so
    /// that a live volume-normalization toggle is correct.
    pub fn store_gains(&mut self, replay_gain: u64, peak_amplitude: u64)
        ensures
            *final(self) == (AppState {
                last_replay_gain: replay_gain,
                last_peak_amplitude: peak_amplitude,
                ..*old(self)
            }),
    {
        self.last_replay_gain = replay_gain;
        self.last_peak_amplitude = peak_amplitude;
    }

    /// Store the gains that the members of a `track-advanced` payload name
    /// (`replayGain`, `peakAmplitude`). Absent ones store "no data".
    pub fn store_advanced(&mut self, members: &Option<Vec<(String, Leaf)>>)
        ensures
            final(self).same_but_gains(*old(self)),
            (final(self).last_replay_gain, final(self).last_peak_amplitude) == gains_in(
                leaves_if(*members),
            ),
            members is None ==> final(self).last_replay_gain == NO_DATA
                && final(self).last_peak_amplitude == NO_DATA,
    {
        match members {
            Some(members) => {
                let gain: u64 = leaf_bits(json::find_member(members, "replayGain"));
                let peak: u64 = leaf_bits(json::find_member(members, "peakAmplitude"));
                self.store_gains(gain, peak);
            },
            None => self.store_gains(NO_DATA, NO_DATA),
        }
    }

    /// A gapless queue went on to its next track: store the gains that the payload
    /// of the event names. A payload that is not JSON names none.
    pub fn on_track_advanced(&mut self, payload: &str)
        ensures
            final(self).same_but_gains(*old(self)),
            (final(self).last_replay_gain, final(self).last_peak_amplitude) == gains_in(
                json::object_members(encode_utf8(payload@)),
            ),
    {
        let members = json::read_object(payload.as_bytes());
        self.store_advanced(&members);
    }
}

// ---------------------------------------------------------------------------
// Files of text
// ---------------------------------------------------------------------------

/// `String::from_utf8`: the text that the bytes encode, and `None` where they are
/// not UTF-8.
#[verifier::external_body]
fn string_from_utf8(bytes: Vec<u8>) -> (text: Option<String>)
    ensures
        match text {
            Some(text) => valid_utf8(bytes@) && text@ == decode_utf8(bytes@),
            None => !valid_utf8(bytes@),
        },
{
    String::from_utf8(bytes).ok()
}

/// The text that a file holds.
pub open spec fn file_text(plain: Option<Seq<u8>>) -> Option<Seq<char>> {
    match plain {
        Some(bytes) => if valid_utf8(bytes) {
            Some(decode_utf8(bytes))
        } else {
            None
        },
        None => None,
    }
}

impl AppState {
    /// The text of a decrypted file; none where it could not be read or decrypted,
    /// or is not UTF-8.
    pub fn read_state_file(plain: Option<Vec<u8>>) -> (text: Option<String>)
        ensures
            text::text_of(text) == file_text(encoding::bytes_of(plain)),
    {
        match plain {
            Some(bytes) => string_from_utf8(bytes),
            None => None,
        }
    }

    /// The bytes of a file that holds this text, before they are encrypted.
    pub fn write_state_file(content: &str) -> (plain: Vec<u8>)
        ensures
            plain@ == encode_utf8(content@),
    {
        content.as_bytes_vec()
    }
}

/// What is written to a file is read back.
pub proof fn law_state_files_read_back(content: Seq<char>)
    ensures
        file_text(Some(encode_utf8(content))) == Some(content),
{
    encode_utf8_valid_utf8(content);
    encode_utf8_decode_utf8(content);
}

/// A run starts with the preferences that were saved, each with the one of its own name,
/// and asks for exclusive access to the device exactly where exclusive mode or bit-perfect
/// output was saved.
pub proof fn law_saved_preferences_come_back(state: AppState, s: Settings)
    requires
        state.prefers(Some(s)),
    ensures
        state.minimize_to_tray == s.minimize_to_tray,
        state.decorations == s.decorations,
        state.volume_normalization == s.volume_normalization,
        state.exclusive_mode == s.exclusive_mode,
        state.bit_perfect == s.bit_perfect,
        state.gapless == s.gapless,
        state.max_quality == s.max_quality,
        state.exclusive_device == s.exclusive_device,
        state.tidal_reporter.enabled == s.report_plays,
        (state.exclusive_mode || state.bit_perfect) == (s.exclusive_mode || s.bit_perfect),
{
}

/// Without saved settings a run starts as it would from those of a fresh install.
pub proof fn law_no_settings_are_those_of_a_fresh_install(state: AppState, fresh: Settings)
    requires
        state.prefers(None),
        fresh.is_default(),
    ensures
        state.minimize_to_tray == fresh.minimize_to_tray,
        state.decorations == fresh.decorations,
        state.volume_normalization == fresh.volume_normalization,
        state.exclusive_mode == fresh.exclusive_mode,
        state.bit_perfect == fresh.bit_perfect,
        state.gapless == fresh.gapless,
        state.exclusive_device == fresh.exclusive_device,
        state.max_quality@ == fresh.max_quality@,
        state.tidal_reporter.enabled == fresh.report_plays,
{
}

/// The gain and the peak of an advanced track are those of its payload, each from the
/// member of its own name, and "no data" where that member is no number.
pub proof fn law_an_advanced_track_brings_its_gains(
    members: Seq<(Seq<char>, json::LeafView)>,
    unsigned: Option<u64>,
    signed: Option<i64>,
    bits: u64,
)
    ensures
        json::member(members, "replayGain"@) == Some(
            json::LeafView::Number { unsigned, signed, float_bits: Some(bits) },
        ) ==> gains_in(Some(members)).0 == bits,
        json::member(members, "peakAmplitude"@) == Some(
            json::LeafView::Number { unsigned, signed, float_bits: Some(bits) },
        ) ==> gains_in(Some(members)).1 == bits,
        !(json::member(members, "replayGain"@) matches Some(json::LeafView::Number { .. }))
            ==> gains_in(Some(members)).0 == 0x7ff8_0000_0000_0000,
        !(json::member(members, "peakAmplitude"@) matches Some(json::LeafView::Number { .. }))
            ==> gains_in(Some(members)).1 == 0x7ff8_0000_0000_0000,
        gains_in(None) == (0x7ff8_0000_0000_0000u64, 0x7ff8_0000_0000_0000u64),
{
}

/// The audio thread starts as it was saved: exclusive access is set exactly where exclusive
/// mode or bit-perfect output was saved, to what was saved of it and on the saved device.
pub proof fn law_audio_starts_as_it_was_saved(audio: StartupAudio, state: AppState, s: Settings)
    requires
        state.prefers(Some(s)),
        is_audio_of(audio, state),
    ensures
        audio.exclusive is Some <==> s.exclusive_mode || s.bit_perfect,
        audio.exclusive matches Some((on, device)) ==> on == s.exclusive_mode && device
            == s.exclusive_device,
        audio.bit_perfect == s.bit_perfect,
        audio.gapless == s.gapless,
{
}

} // verus!
