//! How long the current track has been listened to, and the event that reports it.

use crate::clock::Moment;
use crate::random;
use crate::text;
use crate::tidal_report::event::{SessionEvent, SourceType};
use vstd::prelude::*;

verus! {

/// Nanoseconds in a second.
pub const NANOS_PER_SEC: u64 = 1_000_000_000;

/// TIDAL's own rule: a play of 30 seconds counts as a stream.
pub const THRESHOLD_NS: u64 = 30_000_000_000;

/// Actual stream attributes captured at resolve time, consumed at track start.
#[derive(Debug)]
pub struct StreamMeta {
    pub actual_product_id: Option<u64>,
    pub quality: String,
    pub audio_mode: String,
    pub presentation: String,
    pub at_ms: i64,
}

impl StreamMeta {
    /// The attributes of a track whose stream nobody noted.
    pub open spec fn is_default(self) -> bool {
        &&& self.actual_product_id is None
        &&& self.quality@ == "LOSSLESS"@
        &&& self.audio_mode@ == "STEREO"@
        &&& self.presentation@ == "FULL"@
        &&& self.at_ms == 0
    }
}

impl Default for StreamMeta {
    fn default() -> (meta: Self)
        ensures
            meta.is_default(),
    {
        StreamMeta {
            actual_product_id: None,
            quality: "LOSSLESS".to_string(),
            audio_mode: "STEREO".to_string(),
            presentation: "FULL".to_string(),
            at_ms: 0,
        }
    }
}

/// Live accounting for the currently-playing track.
#[derive(Debug)]
pub struct PlaySession {
    pub session_id: String,
    pub requested_product_id: u64,
    pub duration_secs: u32,
    pub meta: StreamMeta,
    pub source: Option<(SourceType, String)>,
    pub started_at_ms: i64,
    /// Listening time that is folded in already, in nanoseconds.
    pub accumulated_ns: u64,
    /// The tick at which playback last went on; `None` while it is paused.
    pub last_resumed_at: Option<u64>,
    pub reported: bool,
}

// ---------------------------------------------------------------------------
// Listening time
// ---------------------------------------------------------------------------

/// A sum of times, held at the most that 64 bits can count (584 years).
pub open spec fn capped(ns: int) -> u64 {
    if ns <= u64::MAX {
        ns as u64
    } else {
        u64::MAX
    }
}

/// The time from one tick to another; none where the second is the earlier one.
pub open spec fn ticks_since(from: u64, to: u64) -> int {
    if from <= to {
        to - from
    } else {
        0
    }
}

impl PlaySession {
    /// The time since playback last went on: none while it is paused.
    pub open spec fn running_ns(self, tick: u64) -> int {
        match self.last_resumed_at {
            Some(from) => ticks_since(from, tick),
            None => 0,
        }
    }

    /// The listening time at a tick: what is folded in and what runs.
    pub open spec fn elapsed_ns(self, tick: u64) -> u64 {
        capped(self.accumulated_ns + self.running_ns(tick))
    }

    /// The session with its running time folded in and its timer set.
    pub open spec fn folded(self, tick: u64, timer: Option<u64>) -> PlaySession {
        PlaySession {
            accumulated_ns: self.elapsed_ns(tick),
            last_resumed_at: timer,
            ..self
        }
    }

    /// The session once playback is paused.
    pub open spec fn paused(self, tick: u64) -> PlaySession {
        self.folded(tick, None)
    }

    /// The session once playback goes on; nothing changes while it plays.
    pub open spec fn resumed(self, tick: u64) -> PlaySession {
        match self.last_resumed_at {
            Some(_) => self,
            None => PlaySession { last_resumed_at: Some(tick), ..self },
        }
    }

    /// The session after a seek: live time is folded in, and the timer restarts if
    /// it was running.
    pub open spec fn sought(self, tick: u64) -> PlaySession {
        match self.last_resumed_at {
            Some(_) => self.folded(tick, Some(tick)),
            None => self,
        }
    }

    /// The play has been listened to for long enough.
    pub open spec fn counts(self, tick: u64) -> bool {
        self.elapsed_ns(tick) >= THRESHOLD_NS
    }

    /// The play is to be reported when it ends now: it counts, and no report of it
    /// went out before.
    pub open spec fn is_due(self, tick: u64) -> bool {
        !self.reported && self.counts(tick)
    }

    /// Where the play ended: at the track's end if it ran to it, else where the
    /// listener left, never past the track's end.
    pub open spec fn end_ns(self, natural_end: bool, tick: u64) -> u64 {
        let duration = (self.duration_secs * NANOS_PER_SEC) as u64;
        if natural_end || self.elapsed_ns(tick) > duration {
            duration
        } else {
            self.elapsed_ns(tick)
        }
    }

    /// `ev` reports this play, ended at `now`.
    pub open spec fn is_reported_by(
        self,
        ev: SessionEvent,
        natural_end: bool,
        now: Moment,
    ) -> bool {
        &&& ev.session_id == self.session_id
        &&& ev.requested_product_id == self.requested_product_id
        &&& ev.actual_product_id@ == text::decimal(
            match self.meta.actual_product_id {
                Some(id) => id as nat,
                None => self.requested_product_id as nat,
            },
        )
        &&& ev.quality == self.meta.quality
        &&& ev.audio_mode == self.meta.audio_mode
        &&& ev.presentation == self.meta.presentation
        &&& ev.source == self.source
        &&& ev.start_ts_ms == self.started_at_ms
        &&& ev.end_ts_ms == now.wall_ms
        &&& ev.end_asset_pos_ns == self.end_ns(natural_end, now.tick_ns)
    }

    /// A play that starts at `now` and that nobody has listened to yet.
    pub open spec fn is_new(
        self,
        track_id: u64,
        duration_secs: u32,
        source: Option<(SourceType, String)>,
        now: Moment,
    ) -> bool {
        &&& random::is_uuid_v4(self.session_id@)
        &&& self.requested_product_id == track_id
        &&& self.duration_secs == duration_secs
        &&& self.source == source
        &&& self.started_at_ms == now.wall_ms
        &&& self.accumulated_ns == 0
        &&& self.last_resumed_at == Some(now.tick_ns)
        &&& !self.reported
    }

    /// A play that starts now, under a fresh id.
    pub fn new(
        track_id: u64,
        duration_secs: u32,
        meta: StreamMeta,
        source: Option<(SourceType, String)>,
        now: Moment,
    ) -> (session: Self)
        ensures
            session.is_new(track_id, duration_secs, source, now),
            session.meta == meta,
    {
        PlaySession {
            session_id: random::new_uuid(),
            requested_product_id: track_id,
            duration_secs,
            meta,
            source,
            started_at_ms: now.wall_ms,
            accumulated_ns: 0,
            last_resumed_at: Some(now.tick_ns),
            reported: false,
        }
    }

    /// Listening time so far, in nanoseconds.
    pub fn elapsed(&self, tick: u64) -> (ns: u64)
        ensures
            ns == self.elapsed_ns(tick),
    {
        match self.last_resumed_at {
            Some(from) => self.accumulated_ns.saturating_add(tick.saturating_sub(from)),
            None => self.accumulated_ns,
        }
    }

    pub fn pause(&mut self, tick: u64)
        ensures
            *final(self) == old(self).paused(tick),
    {
        self.accumulated_ns = self.elapsed(tick);
        self.last_resumed_at = None;
    }

    pub fn resume(&mut self, tick: u64)
        ensures
            *final(self) == old(self).resumed(tick),
    {
        if self.last_resumed_at.is_none() {
            self.last_resumed_at = Some(tick);
        }
    }

    /// Fold live time; restart the timer only if currently playing.
    pub fn on_seek(&mut self, tick: u64)
        ensures
            *final(self) == old(self).sought(tick),
    {
        if self.last_resumed_at.is_some() {
            self.accumulated_ns = self.elapsed(tick);
            self.last_resumed_at = Some(tick);
        }
    }

    /// TIDAL's own rule: a play of 30 seconds counts as a stream, whatever the
    /// track's length.
    pub fn meets_threshold(&self, tick: u64) -> (counts: bool)
        ensures
            counts == self.counts(tick),
    {
        self.elapsed(tick) >= THRESHOLD_NS
    }

    /// The event that reports this play, ended now.
    pub fn to_event(&self, natural_end: bool, now: Moment) -> (ev: SessionEvent)
        ensures
            self.is_reported_by(ev, natural_end, now),
    {
        let duration: u64 = self.duration_secs as u64 * NANOS_PER_SEC;
        let elapsed: u64 = self.elapsed(now.tick_ns);
        let end: u64 = if natural_end || elapsed > duration {
            duration
        } else {
            elapsed
        };
        let product: u64 = match self.meta.actual_product_id {
            Some(id) => id,
            None => self.requested_product_id,
        };
        let source = match &self.source {
            Some((kind, id)) => Some((*kind, id.clone())),
            None => None,
        };
        SessionEvent {
            session_id: self.session_id.clone(),
            requested_product_id: self.requested_product_id,
            actual_product_id: text::decimal_text(product),
            quality: self.meta.quality.clone(),
            audio_mode: self.meta.audio_mode.clone(),
            presentation: self.meta.presentation.clone(),
            source,
            start_ts_ms: self.started_at_ms,
            end_ts_ms: now.wall_ms,
            end_asset_pos_ns: end,
        }
    }
}

// ---------------------------------------------------------------------------
// Laws
// ---------------------------------------------------------------------------

/// While a play is paused its listening time stands still, and pausing it again
/// changes nothing.
pub proof fn law_paused_time_does_not_count(s: PlaySession, at: u64, later: u64)
    ensures
        s.paused(at).elapsed_ns(later) == s.elapsed_ns(at),
        s.paused(at).paused(later) == s.paused(at),
{
}

/// A pause leaves out exactly the paused time: after a pause from `at` to `back`,
/// the listening time at `later` is what it was at `at` and what ran since `back`.
pub proof fn law_pause_and_resume(s: PlaySession, at: u64, back: u64, later: u64)
    requires
        back <= later,
    ensures
        s.paused(at).resumed(back).elapsed_ns(later) == capped(
            s.elapsed_ns(at) + (later - back),
        ),
        s.paused(at).resumed(back).resumed(later) == s.paused(at).resumed(back),
{
}

/// A seek neither adds to nor takes from the listening time, then or later, and it
/// starts no timer that stood still.
pub proof fn law_seek_keeps_listening_time(s: PlaySession, at: u64, later: u64)
    requires
        at <= later,
        s.last_resumed_at matches Some(from) ==> from <= at,
    ensures
        s.sought(at).elapsed_ns(later) == s.elapsed_ns(later),
        s.sought(at).last_resumed_at is Some == s.last_resumed_at is Some,
{
}

/// Listening time never runs backwards, so a play that counts goes on counting,
/// through pauses, resumes and seeks.
pub proof fn law_listening_time_never_shrinks(s: PlaySession, at: u64, later: u64)
    requires
        at <= later,
    ensures
        s.elapsed_ns(at) <= s.elapsed_ns(later),
        s.counts(at) ==> s.counts(later),
        s.counts(at) ==> s.paused(at).counts(later),
        s.counts(at) ==> s.resumed(at).counts(later),
        s.counts(at) ==> s.sought(at).counts(later),
{
}

/// No event ends past the track's end, and one that ran to the end ends there.
pub proof fn law_end_position_is_within_the_track(
    s: PlaySession,
    ev: SessionEvent,
    natural_end: bool,
    now: Moment,
)
    requires
        s.is_reported_by(ev, natural_end, now),
    ensures
        ev.end_asset_pos_ns <= s.duration_secs * NANOS_PER_SEC,
        natural_end ==> ev.end_asset_pos_ns == s.duration_secs * NANOS_PER_SEC,
        !natural_end ==> ev.end_asset_pos_ns <= s.elapsed_ns(now.tick_ns),
        !natural_end && s.elapsed_ns(now.tick_ns) <= s.duration_secs * NANOS_PER_SEC
            ==> ev.end_asset_pos_ns == s.elapsed_ns(now.tick_ns),
        !natural_end && s.elapsed_ns(now.tick_ns) > s.duration_secs * NANOS_PER_SEC
            ==> ev.end_asset_pos_ns == s.duration_secs * 1_000_000_000,
{
    assert(s.duration_secs * NANOS_PER_SEC <= u32::MAX * NANOS_PER_SEC) by (nonlinear_arith)
        requires
            s.duration_secs <= u32::MAX,
    ;
}

/// An event tells the play that it reports: the session and its start, what was asked for,
/// what was served and where it came from, each fact under its own name, and when it ended.
pub proof fn law_an_event_tells_its_play(
    s: PlaySession,
    ev: SessionEvent,
    natural_end: bool,
    now: Moment,
)
    requires
        s.is_reported_by(ev, natural_end, now),
    ensures
        ev.session_id@ == s.session_id@,
        ev.requested_product_id == s.requested_product_id,
        ev.quality@ == s.meta.quality@,
        ev.audio_mode@ == s.meta.audio_mode@,
        ev.presentation@ == s.meta.presentation@,
        ev.source == s.source,
        ev.start_ts_ms == s.started_at_ms,
        ev.end_ts_ms == now.wall_ms,
        s.meta.actual_product_id matches Some(id) ==> text::digits_value(ev.actual_product_id@)
            == id,
        s.meta.actual_product_id is None ==> text::digits_value(ev.actual_product_id@)
            == s.requested_product_id,
        text::all_digits(ev.actual_product_id@),
{
    text::law_decimals_read_back(
        match s.meta.actual_product_id {
            Some(id) => id as nat,
            None => s.requested_product_id as nat,
        },
    );
}

/// Pausing, resuming and seeking change the clock of a play and nothing else.
pub proof fn law_the_clock_alone_changes(s: PlaySession, tick: u64)
    ensures
        forall|after: PlaySession|
            #![trigger after.session_id]
            after == s.paused(tick) || after == s.resumed(tick) || after == s.sought(tick) ==> {
                &&& after.session_id == s.session_id
                &&& after.requested_product_id == s.requested_product_id
                &&& after.duration_secs == s.duration_secs
                &&& after.meta == s.meta
                &&& after.source == s.source
                &&& after.started_at_ms == s.started_at_ms
                &&& after.reported == s.reported
            },
        s.paused(tick).last_resumed_at is None,
        s.resumed(tick).last_resumed_at is Some,
        s.last_resumed_at is None ==> s.resumed(tick).last_resumed_at == Some(tick),
        s.resumed(tick).accumulated_ns == s.accumulated_ns,
{
}

/// While a play runs, its listening time grows as fast as time does; while it is paused, it
/// is what was listened to before.
pub proof fn law_listening_time_runs_with_time(s: PlaySession, from: u64, at: u64, later: u64)
    requires
        from <= at <= later,
        s.accumulated_ns + (later - from) <= u64::MAX,
    ensures
        s.last_resumed_at == Some(from) ==> s.elapsed_ns(later) - s.elapsed_ns(at) == later - at,
        s.last_resumed_at == Some(from) ==> s.elapsed_ns(from) == s.accumulated_ns,
        s.last_resumed_at is None ==> s.elapsed_ns(later) == s.accumulated_ns,
{
}

/// A new play has not been listened to: its listening time is the time since it began, and
/// it belongs to the track and the container that it was started with.
pub proof fn law_a_new_play_starts_from_nothing(
    s: PlaySession,
    track_id: u64,
    duration_secs: u32,
    source: Option<(SourceType, String)>,
    now: Moment,
    later: u64,
)
    requires
        s.is_new(track_id, duration_secs, source, now),
        now.tick_ns <= later,
    ensures
        s.elapsed_ns(later) == later - now.tick_ns,
        s.counts(later) <==> later - now.tick_ns >= 30_000_000_000,
        !s.reported,
        s.requested_product_id == track_id,
        s.duration_secs == duration_secs,
        s.source == source,
        s.started_at_ms == now.wall_ms,
{
}

} // verus!
