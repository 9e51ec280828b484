//! Playing a track: which stream is asked for, where it is played from, and what
//! the desktop is told.

use crate::encoding;
use crate::error::SoneError;
use crate::state::{AppState, NO_DATA};
use crate::text;
use crate::tidal_report::reporter;
use crate::tidal_report::session::StreamMeta;
use vstd::prelude::*;
use vstd::string::*;
use vstd::utf8::*;

verus! {

// ---------------------------------------------------------------------------
// Quality tiers
// ---------------------------------------------------------------------------

/// TIDAL's quality tiers, highest to lowest.
pub open spec fn tier_order() -> Seq<Seq<char>> {
    seq!["HI_RES_LOSSLESS"@, "HI_RES"@, "LOSSLESS"@, "HIGH"@]
}

/// The two Hi-Res tiers.
pub open spec fn is_hi_res(tier: Seq<char>) -> bool {
    tier == "HI_RES_LOSSLESS"@ || tier == "HI_RES"@
}

/// Where the ceiling stands in the order; an unknown one is treated as the highest.
pub open spec fn ceiling_index(ceiling: Seq<char>) -> int {
    if ceiling == "HI_RES"@ {
        1
    } else if ceiling == "LOSSLESS"@ {
        2
    } else if ceiling == "HIGH"@ {
        3
    } else {
        0
    }
}

/// The tiers that the credentials can have: Hi-Res requires a secret.
pub open spec fn is_offered(has_secret: bool) -> spec_fn(Seq<char>) -> bool {
    |tier: Seq<char>| has_secret || !is_hi_res(tier)
}

/// The tiers to attempt: from the ceiling on down, those that are offered.
pub open spec fn tiers(ceiling: Seq<char>, has_secret: bool) -> Seq<Seq<char>> {
    tier_order().skip(ceiling_index(ceiling)).filter(is_offered(has_secret))
}

/// The names of a list of tiers.
pub open spec fn names(list: Seq<&'static str>) -> Seq<Seq<char>> {
    list.map_values(|name: &'static str| name@)
}

/// The tier at an index of the order.
fn tier_at(i: usize) -> (tier: &'static str)
    requires
        i < 4,
    ensures
        tier@ == tier_order()[i as int],
{
    if i == 0 {
        "HI_RES_LOSSLESS"
    } else if i == 1 {
        "HI_RES"
    } else if i == 2 {
        "LOSSLESS"
    } else {
        "HIGH"
    }
}

/// TIDAL's quality tiers to attempt, highest to lowest, given the user's quality
/// `ceiling` and whether confidential credentials are present. Tiers above the
/// ceiling are dropped; the two Hi-Res tiers require a secret and are dropped without
/// one. An unknown ceiling is treated as the highest. The result always includes
/// `HIGH`, so it is never empty.
pub fn quality_tiers(ceiling: &str, has_secret: bool) -> (list: Vec<&'static str>)
    ensures
        names(list@) == tiers(ceiling@, has_secret),
        list@.len() > 0,
        list@.len() <= 4,
{
    let first: usize = if text::same_text(ceiling, "HI_RES") {
        1
    } else if text::same_text(ceiling, "LOSSLESS") {
        2
    } else if text::same_text(ceiling, "HIGH") {
        3
    } else {
        0
    };
    let ghost wanted = tier_order().skip(first as int);
    let mut list: Vec<&'static str> = Vec::new();
    let mut i: usize = first;
    assert(wanted.take(0).filter(is_offered(has_secret)) =~= seq![]) by {
        reveal(Seq::filter);
    }
    assert(names(list@) =~= seq![]);
    while i < 4
        invariant
            first <= i <= 4,
            wanted == tier_order().skip(first as int),
            wanted.len() == 4 - first,
            names(list@) == wanted.take(i - first).filter(is_offered(has_secret)),
            list@.len() <= i - first,
        decreases 4 - i,
    {
        let ghost before = names(list@);
        let tier = tier_at(i);
        let hi_res = text::same_text(tier, "HI_RES_LOSSLESS") || text::same_text(tier, "HI_RES");
        proof {
            reveal(Seq::filter);
            assert(wanted.take(i - first + 1).drop_last() =~= wanted.take(i - first));
            assert(wanted.take(i - first + 1).last() == tier@);
        }
        if has_secret || !hi_res {
            list.push(tier);
            assert(names(list@) =~= before.push(tier@));
        }
        i += 1;
    }
    assert(wanted.take(4 - first) =~= wanted);
    proof {
        law_tiers_end_in_high(ceiling@, has_secret);
        assert(names(list@).len() == list@.len());
    }
    list
}

/// The cascade always includes `HIGH`, as its last tier, so it is never empty.
pub proof fn law_tiers_end_in_high(ceiling: Seq<char>, has_secret: bool)
    ensures
        tiers(ceiling, has_secret).len() > 0,
        tiers(ceiling, has_secret).last() == "HIGH"@,
        tiers(ceiling, has_secret).contains("HIGH"@),
{
    let wanted = tier_order().skip(ceiling_index(ceiling));
    assert(!is_hi_res("HIGH"@)) by {
        reveal_strlit("HIGH");
        reveal_strlit("HI_RES");
        reveal_strlit("HI_RES_LOSSLESS");
        assert("HIGH"@.len() == 4 && "HI_RES"@.len() == 6 && "HI_RES_LOSSLESS"@.len() == 15);
    }
    assert(wanted.last() == "HIGH"@);
    reveal(Seq::filter);
    let rest = wanted.drop_last().filter(is_offered(has_secret));
    assert(tiers(ceiling, has_secret) == rest.push("HIGH"@));
    assert(rest.push("HIGH"@)[rest.len() as int] == "HIGH"@);
}

/// No tier above the ceiling is attempted, and no Hi-Res tier without a secret.
pub proof fn law_tiers_stay_below_the_ceiling(ceiling: Seq<char>, has_secret: bool)
    ensures
        forall|i: int|
            0 <= i < tiers(ceiling, has_secret).len() ==> {
                let tier = #[trigger] tiers(ceiling, has_secret)[i];
                &&& !has_secret ==> !is_hi_res(tier)
                &&& exists|k: int|
                    ceiling_index(ceiling) <= k < 4 && tier == #[trigger] tier_order()[k]
            },
{
    broadcast use vstd::seq_lib::group_filter_ensures;

    let wanted = tier_order().skip(ceiling_index(ceiling));
    let offered = is_offered(has_secret);
    assert forall|i: int| 0 <= i < tiers(ceiling, has_secret).len() implies {
        let tier = #[trigger] tiers(ceiling, has_secret)[i];
        &&& !has_secret ==> !is_hi_res(tier)
        &&& exists|k: int| ceiling_index(ceiling) <= k < 4 && tier == #[trigger] tier_order()[k]
    } by {
        let tier = wanted.filter(offered)[i];
        assert(offered(tier));
        assert(wanted.filter(offered).contains(tier));
        wanted.lemma_filter_contains_rev(offered, tier);
        let j = choose|j: int| 0 <= j < wanted.len() && wanted[j] == tier;
        assert(tier == tier_order()[ceiling_index(ceiling) + j]);
    }
}

// ---------------------------------------------------------------------------
// The quality cascade
// ---------------------------------------------------------------------------

/// A stream that TIDAL serves. Gains and peaks are the bits of 64-bit numbers.
#[derive(Debug)]
pub struct StreamInfo {
    pub url: String,
    /// The MPD manifest of a DASH stream.
    pub manifest: Option<String>,
    pub track_id: Option<u64>,
    pub audio_quality: Option<String>,
    pub audio_mode: Option<String>,
    pub asset_presentation: Option<String>,
    pub bit_depth: Option<u32>,
    pub sample_rate: Option<u32>,
    pub codec: Option<String>,
    pub track_replay_gain: Option<u64>,
    pub album_replay_gain: Option<u64>,
    pub track_peak_amplitude: Option<u64>,
    pub album_peak_amplitude: Option<u64>,
}

/// The tiers that are tried, and which of them is being tried.
#[derive(Debug)]
pub struct Cascade {
    pub tiers: Vec<&'static str>,
    pub at: usize,
}

/// What a cascade does next.
#[derive(Debug)]
pub enum CascadeStep {
    /// Ask for the stream in this tier.
    Try(&'static str),
    /// The stream is served.
    Served(StreamInfo),
    /// No tier is served.
    Failed(SoneError),
}

/// The reply ends the cascade: a stream, or a failing network, where other tiers
/// are of no use.
pub open spec fn decides(reply: Result<StreamInfo, SoneError>) -> bool {
    match reply {
        Ok(_) => true,
        Err(error) => error is Network,
    }
}

/// The step that a reply ends the cascade with.
pub open spec fn ends_with(reply: Result<StreamInfo, SoneError>) -> CascadeStep {
    match reply {
        Ok(info) => CascadeStep::Served(info),
        Err(error) => CascadeStep::Failed(error),
    }
}

impl Cascade {
    /// A tier is being tried.
    pub open spec fn wf(self) -> bool {
        self.at < self.tiers@.len()
    }

    /// What a reply to the tier that is being tried leaves of the cascade, and the step
    /// that it calls for.
    pub open spec fn replied(
        self,
        reply: Result<StreamInfo, SoneError>,
        after: Cascade,
        step: CascadeStep,
    ) -> bool {
        &&& after.tiers == self.tiers
        &&& if decides(reply) || self.at + 1 == self.tiers@.len() {
            step == ends_with(reply) && after.at == self.at
        } else {
            &&& after.at == self.at + 1
            &&& step matches CascadeStep::Try(tier)
            &&& tier == self.tiers@[self.at + 1]
        }
    }

    /// The cascade for this ceiling and these credentials. Without a secret Hi-Res is
    /// skipped: such credentials typically return encrypted DASH streams.
    pub fn new(ceiling: &str, client_secret: &str) -> (cascade: Self)
        ensures
            cascade.wf(),
            cascade.at == 0,
            names(cascade.tiers@) == tiers(ceiling@, client_secret@.len() > 0),
    {
        let has_secret = !text::is_empty(client_secret);
        Cascade { tiers: quality_tiers(ceiling, has_secret), at: 0 }
    }

    /// The tier that is being tried.
    pub fn tier(&self) -> (tier: &'static str)
        requires
            self.wf(),
        ensures
            tier == self.tiers@[self.at as int],
    {
        self.tiers[self.at]
    }

    /// The reply to the tier that is being tried came in. The next tier is tried
    /// after an error, unless the network failed; after the last one its error is
    /// what comes back.
    pub fn on_reply(&mut self, reply: Result<StreamInfo, SoneError>) -> (step: CascadeStep)
        requires
            old(self).wf(),
        ensures
            final(self).wf(),
            old(self).replied(reply, *final(self), step),
            final(self).tiers == old(self).tiers,
            match reply {
                Ok(info) => step == CascadeStep::Served(info),
                Err(SoneError::Network(reason)) => step == CascadeStep::Failed(
                    SoneError::Network(reason),
                ),
                Err(error) => if old(self).at + 1 < old(self).tiers@.len() {
                    step == CascadeStep::Try(old(self).tiers@[old(self).at + 1])
                } else {
                    step == CascadeStep::Failed(error)
                },
            },
    {
        match reply {
            Ok(info) => CascadeStep::Served(info),
            Err(error) => {
                if error.is_network() || self.at == self.tiers.len() - 1 {
                    return CascadeStep::Failed(error);
                }
                self.at = self.at + 1;
                CascadeStep::Try(self.tiers[self.at])
            },
        }
    }
}

/// How a cascade ends that has come to this tier, by the replies to all tiers.
pub open spec fn cascade_end(replies: Seq<Result<StreamInfo, SoneError>>, at: int) -> CascadeStep
    decreases replies.len() - at,
{
    if at < 0 || decides(replies[at]) || at + 1 >= replies.len() {
        ends_with(replies[at])
    } else {
        cascade_end(replies, at + 1)
    }
}

/// A reply is one step towards the end of a cascade: where another tier is tried, the end
/// stays what it was, and any other step is that end.
pub proof fn law_a_reply_leads_to_the_end(
    before: Cascade,
    after: Cascade,
    step: CascadeStep,
    replies: Seq<Result<StreamInfo, SoneError>>,
)
    requires
        before.wf(),
        replies.len() == before.tiers@.len(),
        before.replied(replies[before.at as int], after, step),
    ensures
        step is Try ==> cascade_end(replies, after.at as int) == cascade_end(
            replies,
            before.at as int,
        ),
        !(step is Try) ==> step == cascade_end(replies, before.at as int),
{
}

/// The tier whose reply is what comes back of a cascade: the first that is served or
/// that the network fails for, else the last.
pub open spec fn is_deciding(replies: Seq<Result<StreamInfo, SoneError>>, k: int) -> bool {
    &&& 0 <= k < replies.len()
    &&& decides(replies[k]) || k + 1 == replies.len()
    &&& forall|j: int| 0 <= j < k ==> !decides(#[trigger] replies[j])
}

/// A cascade returns the best tier that is served: its outcome is the reply to the
/// first tier that is served or that the network fails for, and the last tier's
/// error where there is none.
pub proof fn law_cascade_serves_the_best_tier(
    replies: Seq<Result<StreamInfo, SoneError>>,
    k: int,
)
    requires
        is_deciding(replies, k),
    ensures
        cascade_end(replies, 0) == ends_with(replies[k]),
{
    lemma_cascade_from(replies, 0, k);
}

/// A cascade that has not come to the deciding tier yet ends there.
proof fn lemma_cascade_from(replies: Seq<Result<StreamInfo, SoneError>>, at: int, k: int)
    requires
        is_deciding(replies, k),
        0 <= at <= k,
    ensures
        cascade_end(replies, at) == ends_with(replies[k]),
    decreases k - at,
{
    if at < k {
        lemma_cascade_from(replies, at + 1, k);
    }
}

// ---------------------------------------------------------------------------
// A resolved stream
// ---------------------------------------------------------------------------

/// The volume that a stream is played at.
#[derive(Clone, Copy, Debug, PartialEq, Eq, Structural)]
pub enum NormGain {
    /// As it is.
    Unity,
    /// Normalized by this replay gain and this peak (the bits of 64-bit numbers).
    Normalized { replay_gain: Option<u64>, peak_amplitude: Option<u64> },
}

/// Resolved stream slot: everything a caller needs to arm or play a track. Gain and
/// peak are "no data" when absent.
#[derive(Debug)]
pub struct ResolvedStream {
    pub info: StreamInfo,
    pub uri: String,
    pub gain: NormGain,
    pub replay_gain: u64,
    pub peak_amplitude: u64,
    pub is_dash: bool,
}

/// Where a stream is played from: a DASH manifest is passed as a data URI, anything
/// else by its direct URL.
pub open spec fn uri_of(info: StreamInfo) -> Seq<char> {
    match info.manifest {
        Some(mpd) => "data:application/dash+xml;base64,"@ + encoding::base64_standard(
            encode_utf8(mpd@),
        ),
        None => info.url@,
    }
}

/// The first of two values that is there.
pub open spec fn either(a: Option<u64>, b: Option<u64>) -> Option<u64> {
    if a is Some {
        a
    } else {
        b
    }
}

/// The replay gain and the peak for the playback context: the track's own in a mixed
/// queue, the album's in an album, the other where one is missing.
pub open spec fn gains_of(info: StreamInfo, use_track_gain: bool) -> (Option<u64>, Option<u64>) {
    if use_track_gain {
        (
            either(info.track_replay_gain, info.album_replay_gain),
            either(info.track_peak_amplitude, info.album_peak_amplitude),
        )
    } else {
        (
            either(info.album_replay_gain, info.track_replay_gain),
            either(info.album_peak_amplitude, info.track_peak_amplitude),
        )
    }
}

/// The bits of a value; those of "no data" where there is none.
pub open spec fn or_no_data(value: Option<u64>) -> u64 {
    match value {
        Some(bits) => bits,
        None => NO_DATA,
    }
}

/// `resolved` is this stream, made ready for this playback context.
pub open spec fn resolves(
    resolved: ResolvedStream,
    info: StreamInfo,
    use_track_gain: bool,
    normalize: bool,
) -> bool {
    let (gain, peak) = gains_of(info, use_track_gain);
    &&& resolved.info == info
    &&& resolved.uri@ == uri_of(info)
    &&& resolved.gain == if normalize {
        NormGain::Normalized { replay_gain: gain, peak_amplitude: peak }
    } else {
        NormGain::Unity
    }
    &&& resolved.replay_gain == or_no_data(gain)
    &&& resolved.peak_amplitude == or_no_data(peak)
    &&& resolved.is_dash == (info.manifest is Some)
}

/// `text` is the optional one, or the one that stands in for it.
pub open spec fn is_text_or(text: Seq<char>, optional: Option<String>, fallback: Seq<char>) -> bool {
    match optional {
        Some(s) => text == s@,
        None => text == fallback,
    }
}

/// `meta` are the served attributes of this stream, for play reporting.
pub open spec fn is_meta_of(meta: StreamMeta, info: StreamInfo, now_secs: u64) -> bool {
    &&& meta.actual_product_id == info.track_id
    &&& is_text_or(meta.quality@, info.audio_quality, "LOSSLESS"@)
    &&& is_text_or(meta.audio_mode@, info.audio_mode, "STEREO"@)
    &&& is_text_or(meta.presentation@, info.asset_presentation, "FULL"@)
    &&& meta.at_ms == now_secs * 1000
}

/// An optional text, or the one that stands in for it.
fn text_or(optional: &Option<String>, fallback: &str) -> (text: String)
    ensures
        is_text_or(text@, *optional, fallback@),
{
    match optional {
        Some(s) => s.clone(),
        None => fallback.to_string(),
    }
}

/// The served attributes of a stream, for play reporting. The bound keeps the time
/// in milliseconds within 64 bits.
pub fn stream_meta(info: &StreamInfo, now_secs: u64) -> (meta: StreamMeta)
    requires
        now_secs <= i64::MAX / 1000,
    ensures
        is_meta_of(meta, *info, now_secs),
        meta.actual_product_id == info.track_id,
        info.audio_quality matches Some(quality) ==> meta.quality@ == quality@,
        info.audio_mode matches Some(mode) ==> meta.audio_mode@ == mode@,
        info.asset_presentation matches Some(presentation) ==> meta.presentation@
            == presentation@,
        info.audio_quality is None ==> meta.quality@ == "LOSSLESS"@,
        info.audio_mode is None ==> meta.audio_mode@ == "STEREO"@,
        info.asset_presentation is None ==> meta.presentation@ == "FULL"@,
        meta.at_ms == now_secs * 1000,
{
    StreamMeta {
        actual_product_id: info.track_id,
        quality: text_or(&info.audio_quality, "LOSSLESS"),
        audio_mode: text_or(&info.audio_mode, "STEREO"),
        presentation: text_or(&info.asset_presentation, "FULL"),
        at_ms: now_secs as i64 * 1000,
    }
}

/// Where a stream is played from.
pub fn play_uri(info: &StreamInfo) -> (uri: String)
    requires
        info.manifest matches Some(mpd) ==> encode_utf8(mpd@).len() <= usize::MAX / 4,
    ensures
        uri@ == uri_of(*info),
{
    match &info.manifest {
        Some(mpd) => {
            let encoded = encoding::encode_standard(mpd.as_str().as_bytes());
            text::join("data:application/dash+xml;base64,", encoded.as_str())
        },
        None => info.url.clone(),
    }
}

/// The first of two values that is there.
fn first_of(a: Option<u64>, b: Option<u64>) -> (value: Option<u64>)
    ensures
        value == either(a, b),
{
    match a {
        Some(bits) => Some(bits),
        None => b,
    }
}

/// Shared resolver, once the cascade has a stream: builds the DASH or direct URI,
/// selects replay gain and peak per playback context, and notes the served
/// attributes for play reporting. Neither stores gains nor starts playback.
pub fn resolve_play_uri(
    state: &mut AppState,
    track_id: u64,
    use_track_gain: bool,
    info: StreamInfo,
    now_secs: u64,
) -> (resolved: ResolvedStream)
    requires
        now_secs <= i64::MAX / 1000,
        info.manifest matches Some(mpd) ==> encode_utf8(mpd@).len() <= usize::MAX / 4,
    ensures
        resolves(resolved, info, use_track_gain, old(state).volume_normalization),
        use_track_gain ==> {
            &&& info.track_replay_gain matches Some(bits) ==> resolved.replay_gain == bits
            &&& info.track_peak_amplitude matches Some(bits) ==> resolved.peak_amplitude == bits
        },
        !use_track_gain ==> {
            &&& info.album_replay_gain matches Some(bits) ==> resolved.replay_gain == bits
            &&& info.album_peak_amplitude matches Some(bits) ==> resolved.peak_amplitude == bits
        },
        *final(state) == (AppState {
            tidal_reporter: final(state).tidal_reporter,
            ..*old(state)
        }),
        final(state).tidal_reporter.enabled == old(state).tidal_reporter.enabled,
        final(state).tidal_reporter.current == old(state).tidal_reporter.current,
        final(state).tidal_reporter.queue == old(state).tidal_reporter.queue,
        !old(state).tidal_reporter.enabled ==> final(state).tidal_reporter == old(
            state,
        ).tidal_reporter,
        old(state).tidal_reporter.enabled ==> exists|meta: StreamMeta|
            is_meta_of(meta, info, now_secs) && #[trigger] reporter::noted(
                old(state).tidal_reporter.pending_meta@,
                track_id,
                meta,
                final(state).tidal_reporter.pending_meta@,
            ),
        old(state).tidal_reporter.wf() ==> final(state).tidal_reporter.wf(),
{
    let meta = stream_meta(&info, now_secs);
    state.tidal_reporter.note_stream_resolved(track_id, meta);
    let uri = play_uri(&info);
    let (gain, peak) = if use_track_gain {
        (
            first_of(info.track_replay_gain, info.album_replay_gain),
            first_of(info.track_peak_amplitude, info.album_peak_amplitude),
        )
    } else {
        (
            first_of(info.album_replay_gain, info.track_replay_gain),
            first_of(info.album_peak_amplitude, info.track_peak_amplitude),
        )
    };
    let norm_gain = if state.volume_normalization {
        NormGain::Normalized { replay_gain: gain, peak_amplitude: peak }
    } else {
        NormGain::Unity
    };
    let is_dash = info.manifest.is_some();
    ResolvedStream {
        info,
        uri,
        gain: norm_gain,
        replay_gain: match gain {
            Some(bits) => bits,
            None => NO_DATA,
        },
        peak_amplitude: match peak {
            Some(bits) => bits,
            None => NO_DATA,
        },
        is_dash,
    }
}

/// A track is about to be played at once: store its gains for a live toggle of the
/// volume normalization.
pub fn play_tidal_track(state: &mut AppState, resolved: &ResolvedStream)
    ensures
        *final(state) == (AppState {
            last_replay_gain: resolved.replay_gain,
            last_peak_amplitude: resolved.peak_amplitude,
            ..*old(state)
        }),
{
    state.store_gains(resolved.replay_gain, resolved.peak_amplitude);
}

/// The quality that a video is asked for in.
pub fn video_quality(wanted: Option<String>) -> (quality: String)
    ensures
        is_text_or(quality@, wanted, "HIGH"@),
{
    match wanted {
        Some(quality) => quality,
        None => "HIGH".to_string(),
    }
}

// ---------------------------------------------------------------------------
// Laws of a resolved stream
// ---------------------------------------------------------------------------

/// The same stream with the values of the track and of the album exchanged.
pub open spec fn exchanged(info: StreamInfo) -> StreamInfo {
    StreamInfo {
        track_replay_gain: info.album_replay_gain,
        album_replay_gain: info.track_replay_gain,
        track_peak_amplitude: info.album_peak_amplitude,
        album_peak_amplitude: info.track_peak_amplitude,
        ..info
    }
}

/// Gain and peak belong together: in a mixed queue both are the track's own, in an album
/// both are the album's, and the other's value is used only where the own one is missing.
pub proof fn law_gain_and_peak_follow_the_context(info: StreamInfo)
    ensures
        info.track_replay_gain is Some ==> gains_of(info, true).0 == info.track_replay_gain,
        info.track_replay_gain is None ==> gains_of(info, true).0 == info.album_replay_gain,
        info.track_peak_amplitude is Some ==> gains_of(info, true).1 == info.track_peak_amplitude,
        info.track_peak_amplitude is None ==> gains_of(info, true).1 == info.album_peak_amplitude,
        info.album_replay_gain is Some ==> gains_of(info, false).0 == info.album_replay_gain,
        info.album_replay_gain is None ==> gains_of(info, false).0 == info.track_replay_gain,
        info.album_peak_amplitude is Some ==> gains_of(info, false).1 == info.album_peak_amplitude,
        info.album_peak_amplitude is None ==> gains_of(info, false).1 == info.track_peak_amplitude,
{
}

/// Track and album are treated alike: with their values exchanged, a mixed queue gets what
/// an album got, and an album what a mixed queue got.
pub proof fn law_track_and_album_are_treated_alike(info: StreamInfo, use_track_gain: bool)
    ensures
        gains_of(exchanged(info), !use_track_gain) == gains_of(info, use_track_gain),
{
}

/// What is stored for a live toggle is what the stream is normalized by: the same gain and
/// the same peak, "no data" where there is none, and unity without normalization. A stream
/// with a manifest, and no other, is played as DASH.
pub proof fn law_a_resolved_stream_is_consistent(
    resolved: ResolvedStream,
    info: StreamInfo,
    use_track_gain: bool,
    normalize: bool,
)
    requires
        resolves(resolved, info, use_track_gain, normalize),
    ensures
        resolved.info == info,
        !normalize ==> resolved.gain == NormGain::Unity,
        normalize ==> (resolved.gain matches NormGain::Normalized { replay_gain, peak_amplitude }
            && (replay_gain matches Some(bits) ==> resolved.replay_gain == bits)
            && (replay_gain is None ==> resolved.replay_gain == 0x7ff8_0000_0000_0000)
            && (peak_amplitude matches Some(bits) ==> resolved.peak_amplitude == bits)
            && (peak_amplitude is None ==> resolved.peak_amplitude == 0x7ff8_0000_0000_0000)
            && (replay_gain, peak_amplitude) == gains_of(info, use_track_gain)),
        use_track_gain && info.track_replay_gain is Some ==> resolved.replay_gain
            == info.track_replay_gain->0,
        use_track_gain && info.track_peak_amplitude is Some ==> resolved.peak_amplitude
            == info.track_peak_amplitude->0,
        !use_track_gain && info.album_replay_gain is Some ==> resolved.replay_gain
            == info.album_replay_gain->0,
        !use_track_gain && info.album_peak_amplitude is Some ==> resolved.peak_amplitude
            == info.album_peak_amplitude->0,
        info.manifest is None ==> resolved.uri@ == info.url@ && !resolved.is_dash,
        info.manifest matches Some(mpd) ==> resolved.is_dash && resolved.uri@
            == "data:application/dash+xml;base64,"@ + encoding::base64_standard(encode_utf8(mpd@)),
{
}

/// The attributes that are reported are those that were served; what TIDAL did not tell
/// is taken for a full stereo track without loss.
pub proof fn law_served_attributes_are_reported(meta: StreamMeta, info: StreamInfo, now_secs: u64)
    requires
        is_meta_of(meta, info, now_secs),
    ensures
        meta.actual_product_id == info.track_id,
        info.audio_quality matches Some(quality) ==> meta.quality@ == quality@,
        info.audio_mode matches Some(mode) ==> meta.audio_mode@ == mode@,
        info.asset_presentation matches Some(presentation) ==> meta.presentation@
            == presentation@,
        info.audio_quality is None ==> meta.quality@ == "LOSSLESS"@,
        info.audio_mode is None ==> meta.audio_mode@ == "STEREO"@,
        info.asset_presentation is None ==> meta.presentation@ == "FULL"@,
        meta.at_ms == now_secs * 1000,
{
}

/// Only a stream or a failing network ends a cascade before its last tier: after any other
/// error the next tier is tried, and after the last its own error comes back.
pub proof fn law_any_other_error_goes_on(
    cascade: Cascade,
    reply: Result<StreamInfo, SoneError>,
    after: Cascade,
    step: CascadeStep,
)
    requires
        cascade.wf(),
        cascade.replied(reply, after, step),
    ensures
        after.tiers == cascade.tiers,
        reply matches Ok(info) ==> step == CascadeStep::Served(info),
        reply matches Err(error) ==> error is Network ==> step == CascadeStep::Failed(error),
        reply matches Err(error) ==> !(error is Network) ==> {
            if cascade.at + 1 < cascade.tiers@.len() {
                &&& step == CascadeStep::Try(cascade.tiers@[cascade.at + 1])
                &&& after.at == cascade.at + 1
            } else {
                step == CascadeStep::Failed(error)
            }
        },
{
}

} // verus!
