//! Playing on Sonos: which group is cast to, what is put into its queue, and what
//! is remembered of it. The speaker streams natively from TIDAL.

use crate::error::SoneError;
use crate::lists;
use crate::settings::{self, Settings};
use crate::sonos::{
    self, Mirror, MirrorEntry, SessionInfo, SonosGroupInfo, SonosState, SyncPlan,
};
use crate::text;
use vstd::prelude::*;

verus! {

/// Emitted whenever the speaker-side queue was rebuilt (connect, a track that
/// replaces the queue, reattach), so that the frontend mirror re-syncs the tail.
pub const EVENT_QUEUE_RESET: &'static str = "sonos-queue-reset";

// ---------------------------------------------------------------------------
// Pinned addresses
// ---------------------------------------------------------------------------

/// The user-pinned addresses; none without settings.
pub fn sonos_get_manual_ips(stored: Option<Settings>) -> (ips: Vec<String>)
    ensures
        match stored {
            Some(settings) => ips == settings.sonos_manual_ips,
            None => ips@.len() == 0,
        },
{
    match stored {
        Some(settings) => settings.sonos_manual_ips,
        None => Vec::new(),
    }
}

/// The addresses with one more; one that is there already is not added again.
pub open spec fn with_ip(ips: Seq<Seq<char>>, ip: Seq<char>) -> Seq<Seq<char>> {
    if ips.contains(ip) {
        ips
    } else {
        ips.push(ip)
    }
}

/// Any address but this one.
pub open spec fn is_other(ip: Seq<char>) -> spec_fn(Seq<char>) -> bool {
    |existing: Seq<char>| existing != ip
}

/// The addresses without this one.
pub open spec fn without_ip(ips: Seq<Seq<char>>, ip: Seq<char>) -> Seq<Seq<char>> {
    ips.filter(is_other(ip))
}

/// The address that is probed and pinned: what the user typed, without white space
/// around it.
pub fn manual_ip(typed: &str) -> (ip: String)
    ensures
        ip@ == text::trim(typed@),
{
    text::trimmed(typed).to_string()
}

/// Whether a text is in a list.
fn is_listed(list: &Vec<String>, wanted: &str) -> (listed: bool)
    ensures
        listed == text::texts(list@).contains(wanted@),
{
    let ghost all = text::texts(list@);
    let mut i: usize = 0;
    while i < list.len()
        invariant
            i <= list@.len(),
            all == text::texts(list@),
            forall|j: int| 0 <= j < i ==> #[trigger] all[j] != wanted@,
        decreases list@.len() - i,
    {
        assert(all[i as int] == list@[i as int]@);
        if text::same_text(list[i].as_str(), wanted) {
            return true;
        }
        i += 1;
    }
    false
}

/// The settings with one more pinned address, which a speaker has answered at.
pub fn sonos_add_manual_ip(stored: Option<Settings>, ip: &str) -> (settings: Settings)
    ensures
        exists|before: Settings|
            #![trigger settings::is_loaded(before, stored)]
            {
                &&& settings::is_loaded(before, stored)
                &&& settings == (Settings { sonos_manual_ips: settings.sonos_manual_ips, ..before })
                &&& text::texts(settings.sonos_manual_ips@) == with_ip(
                    text::texts(before.sonos_manual_ips@),
                    ip@,
                )
            },
{
    let mut settings = settings::or_default(stored);
    let ghost before = settings;
    if !is_listed(&settings.sonos_manual_ips, ip) {
        settings.sonos_manual_ips.push(ip.to_string());
        assert(text::texts(settings.sonos_manual_ips@) =~= text::texts(
            before.sonos_manual_ips@,
        ).push(ip@));
    }
    assert(settings::is_loaded(before, stored));
    settings
}

/// The settings without a pinned address.
pub fn sonos_remove_manual_ip(stored: Option<Settings>, ip: &str) -> (settings: Settings)
    ensures
        exists|before: Settings|
            #![trigger settings::is_loaded(before, stored)]
            {
                &&& settings::is_loaded(before, stored)
                &&& settings == (Settings { sonos_manual_ips: settings.sonos_manual_ips, ..before })
                &&& text::texts(settings.sonos_manual_ips@) == without_ip(
                    text::texts(before.sonos_manual_ips@),
                    ip@,
                )
            },
{
    let mut settings = settings::or_default(stored);
    let ghost before = settings;
    let ghost all = text::texts(settings.sonos_manual_ips@);
    let mut listed: Vec<String> = Vec::new();
    std::mem::swap(&mut listed, &mut settings.sonos_manual_ips);
    let mut kept: Vec<String> = Vec::new();
    assert(all.take(0).filter(is_other(ip@)) =~= seq![]) by {
        reveal(Seq::filter);
    }
    assert(text::texts(kept@) =~= seq![]);
    for existing in it: listed
        invariant
            text::texts(it.seq()) == all,
            text::texts(kept@) == without_ip(all.take(it.index() as int), ip@),
    {
        let ghost i = it.index() as int;
        let ghost old_kept = text::texts(kept@);
        proof {
            reveal(Seq::filter);
            assert(all.take(i + 1).drop_last() =~= all.take(i));
            assert(all.take(i + 1).last() == existing@);
        }
        if !text::same_text(existing.as_str(), ip) {
            kept.push(existing);
            assert(text::texts(kept@) =~= old_kept.push(existing@));
        }
    }
    assert(all.take(all.len() as int) =~= all);
    settings.sonos_manual_ips = kept;
    assert(settings::is_loaded(before, stored));
    settings
}

/// An address that was not pinned is, once added, and gone once removed, with the
/// others as they were; nothing is ever pinned twice.
pub proof fn law_pinned_addresses(ips: Seq<Seq<char>>, ip: Seq<char>)
    requires
        ips.no_duplicates(),
    ensures
        with_ip(ips, ip).contains(ip),
        with_ip(ips, ip).no_duplicates(),
        with_ip(with_ip(ips, ip), ip) == with_ip(ips, ip),
        !without_ip(ips, ip).contains(ip),
        !ips.contains(ip) ==> without_ip(with_ip(ips, ip), ip) == ips,
{
    broadcast use vstd::seq_lib::group_filter_ensures;

    if !ips.contains(ip) {
        let more = ips.push(ip);
        assert(more[ips.len() as int] == ip);
        lists::lemma_filter_all(ips, is_other(ip));
        assert(more.drop_last() =~= ips);
        reveal(Seq::filter);
        assert(without_ip(more, ip) == ips);
    }
    if without_ip(ips, ip).contains(ip) {
        let k = choose|k: int| 0 <= k < without_ip(ips, ip).len() && without_ip(ips, ip)[k] == ip;
        assert(is_other(ip)(ips.filter(is_other(ip))[k]));
    }
}

// ---------------------------------------------------------------------------
// The session
// ---------------------------------------------------------------------------

/// The message for a command that needs a session.
pub const NO_SESSION: &'static str = "no active Sonos session";

/// The active session, or an error when not casting.
pub fn session_info(state: &SonosState) -> (info: Result<SessionInfo, SoneError>)
    ensures
        match state.session {
            Some(session) => info matches Ok(info) && info == session,
            None => info matches Err(SoneError::SonosProtocol(message)) && message@ == NO_SESSION@,
        },
{
    match &state.session {
        Some(session) => Ok(session.clone()),
        None => Err(SoneError::SonosProtocol(NO_SESSION.to_string())),
    }
}

/// Group `k` is the first that this speaker coordinates.
pub open spec fn is_group_at(groups: Seq<SonosGroupInfo>, uuid: Seq<char>, k: int) -> bool {
    &&& 0 <= k < groups.len()
    &&& groups[k].group.coordinator_uuid@ == uuid
    &&& forall|j: int| 0 <= j < k ==> (#[trigger] groups[j]).group.coordinator_uuid@ != uuid
}

/// This speaker coordinates none of the groups.
pub open spec fn no_group(groups: Seq<SonosGroupInfo>, uuid: Seq<char>) -> bool {
    forall|j: int|
        0 <= j < groups.len() ==> (#[trigger] groups[j]).group.coordinator_uuid@ != uuid
}

/// The session that casts to the first group that this speaker coordinates.
pub fn find_group(groups: &Vec<SonosGroupInfo>, uuid: &str) -> (info: Option<SessionInfo>)
    ensures
        match info {
            Some(info) => exists|k: int| #[trigger]
                is_group_at(groups@, uuid@, k) && info == sonos::session_of(groups@[k]),
            None => no_group(groups@, uuid@),
        },
{
    let mut i: usize = 0;
    while i < groups.len()
        invariant
            i <= groups@.len(),
            forall|j: int|
                0 <= j < i ==> (#[trigger] groups@[j]).group.coordinator_uuid@ != uuid@,
        decreases groups@.len() - i,
    {
        let group = &groups[i].group;
        if text::same_text(group.coordinator_uuid.as_str(), uuid) {
            assert(is_group_at(groups@, uuid@, i as int));
            return Some(
                SessionInfo {
                    coordinator_ip: group.coordinator_ip.clone(),
                    coordinator_uuid: group.coordinator_uuid.clone(),
                    room_name: group.name.clone(),
                },
            );
        }
        i += 1;
    }
    None
}

/// The session that casts to a group, among those that were just discovered.
pub fn discovered_group(groups: &Vec<SonosGroupInfo>, uuid: &str) -> (info: Result<
    SessionInfo,
    SoneError,
>)
    ensures
        match info {
            Ok(info) => exists|k: int| #[trigger]
                is_group_at(groups@, uuid@, k) && info == sonos::session_of(groups@[k]),
            Err(error) => {
                &&& no_group(groups@, uuid@)
                &&& error matches SoneError::SonosUnreachable(message)
                &&& message@ == "group "@ + uuid@ + " not found"@
            },
        },
{
    match find_group(groups, uuid) {
        Some(info) => Ok(info),
        None => {
            let mut message = "group ".to_string();
            message.append(uuid);
            message.append(" not found");
            Err(SoneError::SonosUnreachable(message))
        },
    }
}

/// What is left to do when a session is taken over or given up.
#[derive(Debug)]
pub struct SessionEnd {
    /// A session was under way: it is no longer watched.
    pub stopped: bool,
    /// The speaker at this address is paused, as well as may be.
    pub pause: Option<String>,
}

/// `end` ends this session, and pauses its speaker where `pause` says so.
pub open spec fn ends(end: SessionEnd, session: Option<SessionInfo>, pause: bool) -> bool {
    match session {
        Some(session) => end == (SessionEnd {
            stopped: true,
            pause: if pause {
                Some(session.coordinator_ip)
            } else {
                None
            },
        }),
        None => end == (SessionEnd { stopped: false, pause: None }),
    }
}

/// The speakers after a session was taken over, given up or begun: the groups are as they
/// were, and nothing is known of a tail.
pub open spec fn session_changed(
    before: SonosState,
    after: SonosState,
    session: Option<SessionInfo>,
    seeded: bool,
) -> bool {
    &&& after.groups == before.groups
    &&& after.session == session
    &&& after.mirror.entries@.len() == 0
    &&& after.mirror.seeded == seeded
}

/// Cast to a group that has answered. A group that was cast to before is let go,
/// and paused if it is another one: it would otherwise keep playing its queue with
/// nothing controlling it. The mirror starts anew.
pub fn sonos_connect(state: &mut SonosState, info: SessionInfo) -> (end: SessionEnd)
    ensures
        final(state).groups == old(state).groups,
        final(state).session == Some(info),
        final(state).mirror.tail() == Seq::<sonos::EntryView>::empty(),
        !final(state).mirror.seeded,
        ends(
            end,
            old(state).session,
            old(state).session matches Some(session) && session.coordinator_uuid@
                != info.coordinator_uuid@,
        ),
        session_changed(*old(state), *final(state), Some(info), false),
{
    let mut end = SessionEnd { stopped: false, pause: None };
    if let Some(session) = state.session.take() {
        end.stopped = true;
        if !text::same_text(session.coordinator_uuid.as_str(), info.coordinator_uuid.as_str()) {
            end.pause = Some(session.coordinator_ip);
        }
    }
    state.mirror.clear();
    state.mirror.seeded = false;
    state.session = Some(info);
    assert(state.mirror.tail().len() == state.mirror.entries@.len());
    end
}

/// The settings once a group is cast to: it is the last one now.
pub fn remember_group(stored: Option<Settings>, uuid: String) -> (settings: Settings)
    ensures
        exists|before: Settings|
            #![trigger settings::is_loaded(before, stored)]
            settings::is_loaded(before, stored) && settings == (Settings {
                sonos_last_group_uuid: Some(uuid),
                ..before
            }),
{
    let mut settings = settings::or_default(stored);
    let ghost before = settings;
    settings.sonos_last_group_uuid = Some(uuid);
    assert(settings::is_loaded(before, stored));
    settings
}

/// Stop casting, and pause the speaker if that is asked for.
pub fn sonos_disconnect(state: &mut SonosState, pause_remote: bool) -> (end: SessionEnd)
    ensures
        final(state).groups == old(state).groups,
        final(state).session is None,
        final(state).mirror.tail() == Seq::<sonos::EntryView>::empty(),
        !final(state).mirror.seeded,
        ends(end, old(state).session, pause_remote),
        session_changed(*old(state), *final(state), None, false),
{
    let taken = state.session.take();
    state.mirror.clear();
    state.mirror.seeded = false;
    assert(state.mirror.tail().len() == state.mirror.entries@.len());
    match taken {
        Some(session) => SessionEnd {
            stopped: true,
            pause: if pause_remote {
                Some(session.coordinator_ip)
            } else {
                None
            },
        },
        None => SessionEnd { stopped: false, pause: None },
    }
}

// ---------------------------------------------------------------------------
// Playing a track
// ---------------------------------------------------------------------------

/// How far a track has come into the speaker's queue.
#[derive(Clone, Copy, Debug, PartialEq, Eq, Structural)]
pub enum PlayStage {
    /// The queue is being cleared.
    Clear,
    /// The track is being added, by its bare URI.
    AddBare,
    /// The track is being added, by the explicit service URI that some firmware and
    /// account combinations want.
    AddHttp,
    /// The queue is being made what the speaker plays.
    SetQueue,
    /// The play order is being set: it is never the speaker's.
    SetMode,
    /// Playback is being started.
    Start,
    Failed,
    Done,
}

/// What to do next for a track that is being played.
#[derive(Debug)]
pub enum PlayStep {
    /// Add the track by its bare URI.
    AddBare,
    /// Add the track by the service URI for the account of this serial.
    AddHttp { account_serial: String },
    /// Make the queue what the speaker plays.
    SetQueue,
    /// Set the play mode to `NORMAL`.
    SetMode,
    /// Start playback.
    Start,
    /// The track did not get there.
    Failed(SoneError),
    /// The track is there: tell the frontend that the queue was rebuilt.
    Done,
}

/// A track on its way into the speaker's queue.
#[derive(Debug)]
pub struct PlayTrack {
    pub stage: PlayStage,
    pub start: bool,
    /// The rejection after which the other URI is tried.
    pub first_error: Option<SoneError>,
}

/// The stage after an answer. Only a definitive UPnP rejection of the bare URI is
/// tried again: after any other error the track may have landed with the answer
/// lost, and trying again would add it twice. A play mode that cannot be set is no
/// failure.
pub open spec fn stage_after(
    stage: PlayStage,
    start: bool,
    result: Result<(), SoneError>,
) -> PlayStage {
    match stage {
        PlayStage::Clear => if result is Ok {
            PlayStage::AddBare
        } else {
            PlayStage::Failed
        },
        PlayStage::AddBare => match result {
            Ok(()) => PlayStage::SetQueue,
            Err(SoneError::SonosUpnp { .. }) => PlayStage::AddHttp,
            Err(_) => PlayStage::Failed,
        },
        PlayStage::AddHttp => if result is Ok {
            PlayStage::SetQueue
        } else {
            PlayStage::Failed
        },
        PlayStage::SetQueue => if result is Ok {
            PlayStage::SetMode
        } else {
            PlayStage::Failed
        },
        PlayStage::SetMode => if start {
            PlayStage::Start
        } else {
            PlayStage::Done
        },
        PlayStage::Start => if result is Ok {
            PlayStage::Done
        } else {
            PlayStage::Failed
        },
        _ => stage,
    }
}

/// The serial of the first linked account.
pub open spec fn first_serial(groups: Seq<SonosGroupInfo>) -> Option<String>
    decreases groups.len(),
{
    if groups.len() == 0 {
        None
    } else if groups[0].tidal_serial is Some {
        groups[0].tidal_serial
    } else {
        first_serial(groups.drop_first())
    }
}

/// `step` goes with this stage; a track that failed is answered with `error`.
pub open spec fn is_step_of(
    step: PlayStep,
    stage: PlayStage,
    groups: Seq<SonosGroupInfo>,
    error: SoneError,
) -> bool {
    match stage {
        PlayStage::Clear => false,
        PlayStage::AddBare => step is AddBare,
        PlayStage::AddHttp => {
            &&& step matches PlayStep::AddHttp { account_serial }
            &&& match first_serial(groups) {
                Some(serial) => account_serial == serial,
                None => account_serial@ == "1"@,
            }
        },
        PlayStage::SetQueue => step is SetQueue,
        PlayStage::SetMode => step is SetMode,
        PlayStage::Start => step is Start,
        PlayStage::Failed => step == PlayStep::Failed(error),
        PlayStage::Done => step is Done,
    }
}

/// The serial of the first linked account, or the one that stands in for it.
fn account_serial(groups: &Vec<SonosGroupInfo>) -> (serial: String)
    ensures
        match first_serial(groups@) {
            Some(first) => serial == first,
            None => serial@ == "1"@,
        },
{
    let mut i: usize = 0;
    assert(groups@.skip(0) =~= groups@);
    while i < groups.len()
        invariant
            i <= groups@.len(),
            first_serial(groups@) == first_serial(groups@.skip(i as int)),
        decreases groups@.len() - i,
    {
        assert(groups@.skip(i as int)[0] == groups@[i as int]);
        assert(groups@.skip(i as int).drop_first() =~= groups@.skip(i + 1));
        if let Some(serial) = &groups[i].tidal_serial {
            return serial.clone();
        }
        i += 1;
    }
    "1".to_string()
}

/// Replace the group's queue with one TIDAL track and play it. The queue is cleared
/// first, which voids any mirrored tail. Returns the group, and the track on its way.
pub fn sonos_play_track(state: &mut SonosState, start: bool) -> (play: Result<
    (SessionInfo, PlayTrack),
    SoneError,
>)
    ensures
        match old(state).session {
            Some(session) => {
                &&& play matches Ok((info, track))
                &&& info == session
                &&& track == (PlayTrack { stage: PlayStage::Clear, start, first_error: None })
                &&& final(state).mirror.tail() == Seq::<sonos::EntryView>::empty()
                &&& final(state).mirror.seeded == old(state).mirror.seeded
                &&& final(state).session == old(state).session
                &&& final(state).groups == old(state).groups
                &&& session_changed(
                    *old(state),
                    *final(state),
                    old(state).session,
                    old(state).mirror.seeded,
                )
            },
            None => {
                &&& play matches Err(SoneError::SonosProtocol(message))
                &&& message@ == NO_SESSION@
                &&& *final(state) == *old(state)
            },
        },
{
    match session_info(state) {
        Ok(info) => {
            state.mirror.clear();
            assert(state.mirror.tail().len() == state.mirror.entries@.len());
            Ok((info, PlayTrack { stage: PlayStage::Clear, start, first_error: None }))
        },
        Err(error) => Err(error),
    }
}

impl PlayTrack {
    /// The rejection of the bare URI is known when the other one is tried.
    pub open spec fn wf(self) -> bool {
        self.stage is AddHttp ==> self.first_error is Some
    }

    /// The error that a failure is answered with: when the second URI fails too, that
    /// of the first.
    pub open spec fn answer(self, result: Result<(), SoneError>) -> SoneError {
        if self.stage is AddHttp {
            self.first_error->0
        } else {
            result->Err_0
        }
    }

    /// The speaker answered. When the track is there, a tail may follow it.
    pub fn on_result(&mut self, state: &mut SonosState, result: Result<(), SoneError>) -> (step:
        PlayStep)
        requires
            old(self).wf(),
            !(old(self).stage is Failed) && !(old(self).stage is Done),
        ensures
            final(self).wf(),
            final(self).start == old(self).start,
            final(self).stage == stage_after(old(self).stage, old(self).start, result),
            is_step_of(step, final(self).stage, old(state).groups@, old(self).answer(result)),
            final(self).stage is AddHttp ==> final(self).first_error == Some(result->Err_0),
            final(state).groups == old(state).groups,
            final(state).session == old(state).session,
            final(state).mirror.entries == old(state).mirror.entries,
            final(state).mirror.seeded == (old(state).mirror.seeded || final(self).stage is Done),
    {
        match self.stage {
            PlayStage::Clear => match result {
                Ok(()) => {
                    self.stage = PlayStage::AddBare;
                    PlayStep::AddBare
                },
                Err(error) => self.fail(error),
            },
            PlayStage::AddBare => match result {
                Ok(()) => {
                    self.stage = PlayStage::SetQueue;
                    PlayStep::SetQueue
                },
                Err(error) => {
                    if !error.is_sonos_upnp() {
                        return self.fail(error);
                    }
                    self.stage = PlayStage::AddHttp;
                    self.first_error = Some(error);
                    PlayStep::AddHttp { account_serial: account_serial(&state.groups) }
                },
            },
            PlayStage::AddHttp => match result {
                Ok(()) => {
                    self.stage = PlayStage::SetQueue;
                    PlayStep::SetQueue
                },
                Err(error) => {
                    let error = match self.first_error.take() {
                        Some(first) => first,
                        None => error,
                    };
                    self.fail(error)
                },
            },
            PlayStage::SetQueue => match result {
                Ok(()) => {
                    self.stage = PlayStage::SetMode;
                    PlayStep::SetMode
                },
                Err(error) => self.fail(error),
            },
            PlayStage::SetMode => {
                if self.start {
                    self.stage = PlayStage::Start;
                    PlayStep::Start
                } else {
                    self.stage = PlayStage::Done;
                    state.mirror.seeded = true;
                    PlayStep::Done
                }
            },
            PlayStage::Start => match result {
                Ok(()) => {
                    self.stage = PlayStage::Done;
                    state.mirror.seeded = true;
                    PlayStep::Done
                },
                Err(error) => self.fail(error),
            },
            PlayStage::Failed | PlayStage::Done => PlayStep::Done,
        }
    }

    /// The track did not get there.
    fn fail(&mut self, error: SoneError) -> (step: PlayStep)
        ensures
            step == PlayStep::Failed(error),
            final(self).stage is Failed,
            final(self).start == old(self).start,
            final(self).first_error == old(self).first_error,
    {
        self.stage = PlayStage::Failed;
        PlayStep::Failed(error)
    }
}

/// How far a track has come.
pub open spec fn play_progress(stage: PlayStage) -> nat {
    match stage {
        PlayStage::Clear => 0,
        PlayStage::AddBare => 1,
        PlayStage::AddHttp => 2,
        PlayStage::SetQueue => 3,
        PlayStage::SetMode => 4,
        PlayStage::Start => 5,
        PlayStage::Failed => 6,
        PlayStage::Done => 6,
    }
}

/// A track is never added twice by one command: it only goes forward, so each URI is
/// tried once at most, and the second only where the speaker rejected the first.
pub proof fn law_a_track_is_not_added_twice(
    stage: PlayStage,
    start: bool,
    result: Result<(), SoneError>,
)
    requires
        !(stage is Failed) && !(stage is Done),
    ensures
        play_progress(stage_after(stage, start, result)) > play_progress(stage),
        stage_after(stage, start, result) is AddHttp <==> stage is AddBare && (result matches Err(
            error,
        ) && error is SonosUpnp),
        (stage is AddBare || stage is AddHttp) && result is Ok ==> stage_after(
            stage,
            start,
            result,
        ) is SetQueue,
{
}

// ---------------------------------------------------------------------------
// Mirroring the up-next list
// ---------------------------------------------------------------------------

/// A track of the up-next list, with what the speaker shows of it.
#[derive(Debug)]
pub struct TailTrack<M> {
    pub track_id: u64,
    pub qid: String,
    pub meta: M,
}

/// The up-next list.
pub open spec fn up_next<M>(tracks: Seq<TailTrack<M>>) -> Seq<sonos::EntryView> {
    tracks.map_values(|t: TailTrack<M>| sonos::EntryView { track_id: t.track_id, qid: t.qid@ })
}

/// How far the tail has been brought up to date.
#[derive(Clone, Copy, Debug, PartialEq, Eq, Structural)]
pub enum SyncStage {
    /// The speaker is asked what its queue holds.
    Ask,
    /// The old tail is being removed.
    Remove,
    /// The next track is being added.
    Add,
    Done,
}

/// A tail that is being brought up to date.
#[derive(Debug)]
pub struct SyncTail {
    pub desired: Vec<MirrorEntry>,
    /// The track that is added next.
    pub next: usize,
    pub stage: SyncStage,
}

/// The tracks of the queue after the current one: the first of them, and how many.
pub open spec fn tail_range(nr_tracks: u32, current: u32) -> Option<(u32, u32)> {
    if nr_tracks > current && current > 0 {
        Some(((current + 1) as u32, (nr_tracks - current) as u32))
    } else {
        None
    }
}

/// The number of the current track, as far as the speaker tells it: the queue plays
/// its first one before it plays another.
pub open spec fn current_nr(track_nr: u32) -> u32 {
    if track_nr == 0 {
        1
    } else {
        track_nr
    }
}

/// The tracks of the queue after the current one.
fn range_after(nr_tracks: u32, current: u32) -> (range: Option<(u32, u32)>)
    ensures
        range == tail_range(nr_tracks, current),
{
    if nr_tracks > current && current > 0 {
        Some((current + 1, nr_tracks - current))
    } else {
        None
    }
}

/// Removing the tail removes all that comes after the current track, and nothing
/// else.
pub proof fn law_the_whole_tail_is_removed(nr_tracks: u32, current: u32)
    requires
        current > 0,
    ensures
        match tail_range(nr_tracks, current) {
            Some((first, count)) => {
                &&& first == current + 1
                &&& first + count - 1 == nr_tracks
                &&& nr_tracks - count == current
            },
            None => nr_tracks <= current,
        },
{
}

impl SyncTail {
    /// The up-next list.
    pub open spec fn list(self) -> Seq<sonos::EntryView> {
        sonos::tail_of(self.desired@)
    }

    /// The mirror holds what is on the speaker: while tracks are added, those that
    /// have landed.
    pub open spec fn matches(self, mirror: Mirror) -> bool {
        match self.stage {
            SyncStage::Add => self.next < self.desired@.len() && mirror.tail() == self.list().take(
                self.next as int,
            ),
            SyncStage::Done => mirror.tail() == self.list(),
            _ => true,
        }
    }

    /// The list, with its old tail gone.
    fn restart(&mut self, mirror: &mut Mirror)
        ensures
            final(self).desired == old(self).desired,
            final(self).next == 0,
            final(self).stage == if old(self).desired@.len() == 0 {
                SyncStage::Done
            } else {
                SyncStage::Add
            },
            final(mirror).tail() == Seq::<sonos::EntryView>::empty(),
            final(mirror).seeded == old(mirror).seeded,
            final(self).matches(*final(mirror)),
    {
        mirror.clear();
        self.next = 0;
        self.stage = if self.desired.len() == 0 {
            SyncStage::Done
        } else {
            SyncStage::Add
        };
        assert(self.list().take(0) =~= Seq::<sonos::EntryView>::empty());
        assert(self.desired@.len() == 0 ==> self.list() =~= Seq::<sonos::EntryView>::empty());
    }

    /// The speaker told how many tracks its queue holds and which of them plays.
    /// Returns the tracks to remove (the first, and how many); where there are none,
    /// adding begins.
    pub fn on_queue(&mut self, mirror: &mut Mirror, nr_tracks: u32, track_nr: u32) -> (remove:
        Option<(u32, u32)>)
        requires
            old(self).stage is Ask,
        ensures
            remove == tail_range(nr_tracks, current_nr(track_nr)),
            final(self).desired == old(self).desired,
            final(mirror).seeded == old(mirror).seeded,
            match remove {
                Some(_) => final(self).stage is Remove && *final(mirror) == *old(mirror),
                None => {
                    &&& final(self).stage == if old(self).desired@.len() == 0 {
                        SyncStage::Done
                    } else {
                        SyncStage::Add
                    }
                    &&& final(self).next == 0
                    &&& final(mirror).tail() == Seq::<sonos::EntryView>::empty()
                },
            },
            final(self).matches(*final(mirror)),
    {
        let current: u32 = if track_nr == 0 {
            1
        } else {
            track_nr
        };
        let remove = range_after(nr_tracks, current);
        if remove.is_some() {
            self.stage = SyncStage::Remove;
        } else {
            self.restart(mirror);
        }
        remove
    }

    /// The speaker removed the old tail: adding begins.
    pub fn on_removed(&mut self, mirror: &mut Mirror)
        requires
            old(self).stage is Remove,
        ensures
            final(self).desired == old(self).desired,
            final(self).next == 0,
            final(self).stage == if old(self).desired@.len() == 0 {
                SyncStage::Done
            } else {
                SyncStage::Add
            },
            final(mirror).tail() == Seq::<sonos::EntryView>::empty(),
            final(mirror).seeded == old(mirror).seeded,
            final(self).matches(*final(mirror)),
    {
        self.restart(mirror);
    }

    /// The speaker added a track. It is recorded at once, so that a failure midway
    /// leaves the mirror matching what actually landed on the speaker.
    pub fn on_added(&mut self, mirror: &mut Mirror)
        requires
            old(self).stage is Add,
            old(self).matches(*old(mirror)),
        ensures
            final(self).desired == old(self).desired,
            final(self).next == old(self).next + 1,
            final(self).stage == if old(self).next + 1 == old(self).desired@.len() {
                SyncStage::Done
            } else {
                SyncStage::Add
            },
            final(mirror).tail() == old(mirror).tail().push(old(self).list()[old(self).next as int]),
            final(mirror).seeded == old(mirror).seeded,
            final(self).matches(*final(mirror)),
    {
        let ghost list = self.list();
        let ghost n = self.next as int;
        assert(list[n] == self.desired@[n]@);
        let size: usize = self.desired.len();
        mirror.push(&self.desired[self.next]);
        assert(list.take(n + 1) =~= list.take(n).push(list[n]));
        self.next = self.next + 1;
        if self.next == size {
            assert(list.take(n + 1) =~= list);
            self.stage = SyncStage::Done;
        }
    }
}

/// `sync` is how a tail is brought to the list, to begin with: nothing is done while
/// the speaker's queue does not hold the current track yet.
pub open spec fn begins_sync(
    sync: SyncTail,
    mirror: Mirror,
    desired: Seq<sonos::EntryView>,
) -> bool {
    &&& sync.list() == desired
    &&& if !mirror.seeded {
        sync.stage is Done
    } else {
        match sonos::plan(mirror.tail(), desired) {
            SyncPlan::NoOp => sync.stage is Done && mirror.tail() == desired,
            SyncPlan::Append { skip } => sync.stage is Add && sync.next == skip && sync.matches(
                mirror,
            ),
            SyncPlan::Rewrite => sync.stage is Ask,
        }
    }
}

/// Make the speaker's queue tail match the frontend's up-next list (append when
/// extended, otherwise wipe and re-add). The speaker then self-advances gaplessly, and
/// keeps playing even if the player exits.
pub fn sonos_sync_queue_tail<M>(state: &SonosState, tracks: &Vec<TailTrack<M>>) -> (sync: Result<
    SyncTail,
    SoneError,
>)
    ensures
        match state.session {
            Some(_) => sync matches Ok(sync) && begins_sync(sync, state.mirror, up_next(tracks@)),
            None => sync matches Err(SoneError::SonosProtocol(message)) && message@ == NO_SESSION@,
        },
{
    if let Err(error) = session_info(state) {
        return Err(error);
    }
    let ghost list = up_next(tracks@);
    let mut desired: Vec<MirrorEntry> = Vec::new();
    let mut i: usize = 0;
    while i < tracks.len()
        invariant
            i <= tracks@.len(),
            list == up_next(tracks@),
            sonos::tail_of(desired@) == list.take(i as int),
        decreases tracks@.len() - i,
    {
        let ghost before = sonos::tail_of(desired@);
        desired.push(MirrorEntry { track_id: tracks[i].track_id, qid: tracks[i].qid.clone() });
        assert(sonos::tail_of(desired@) =~= before.push(list[i as int]));
        assert(before.push(list[i as int]) =~= list.take(i + 1));
        i += 1;
    }
    assert(list.take(i as int) =~= list);
    assert(list.len() == desired@.len());
    if !state.mirror.seeded {
        return Ok(SyncTail { desired, next: 0, stage: SyncStage::Done });
    }
    let plan = sonos::plan_sync(&state.mirror.entries, &desired);
    let ghost tail = state.mirror.tail();
    assert(tail.len() == state.mirror.entries@.len());
    match plan {
        SyncPlan::NoOp => Ok(SyncTail { desired, next: 0, stage: SyncStage::Done }),
        SyncPlan::Append { skip } => {
            assert(tail.len() == list.len() ==> tail =~= list);
            Ok(SyncTail { desired, next: skip, stage: SyncStage::Add })
        },
        SyncPlan::Rewrite => Ok(SyncTail { desired, next: 0, stage: SyncStage::Ask }),
    }
}

// ---------------------------------------------------------------------------
// Reattaching
// ---------------------------------------------------------------------------

/// What the speaker does.
#[derive(Debug)]
pub enum TransportState {
    Playing,
    /// Anything else, by the speaker's name for it.
    Other(String),
}

/// What the speaker tells of its queue.
#[derive(Debug)]
pub struct MediaInfo {
    pub nr_tracks: u32,
    pub current_uri: String,
}

/// What the speaker tells of its position. The seconds are the bits of a 64-bit
/// number.
#[derive(Debug)]
pub struct PositionInfo {
    pub track_nr: u32,
    pub track_uri: String,
    pub position_secs: Option<u64>,
}

/// Everything the frontend needs to silently re-adopt a still-playing cast session
/// from a previous run. The seconds are the bits of a 64-bit number.
#[derive(Debug)]
pub struct ReattachInfo {
    pub session: SessionInfo,
    pub track_id: u64,
    pub position_secs: u64,
    pub volume: u8,
    pub muted: bool,
}

/// The bits of an optional number; those of 0.0 where there is none.
pub open spec fn or_zero(bits: Option<u64>) -> u64 {
    match bits {
        Some(bits) => bits,
        None => 0,
    }
}

/// The group that was cast to last.
pub fn last_group(stored: &Option<Settings>) -> (uuid: Option<String>)
    ensures
        uuid == match *stored {
            Some(settings) => settings.sonos_last_group_uuid,
            None => None,
        },
{
    match stored {
        Some(settings) => text::copied(&settings.sonos_last_group_uuid),
        None => None,
    }
}

/// How far a session has been taken up again.
#[derive(Clone, Copy, Debug, PartialEq, Eq, Structural)]
pub enum ReattachStage {
    /// The speaker is asked what it plays from.
    Media,
    /// The speaker is asked whether it is playing.
    Transport,
    /// The speaker is asked where it is.
    Position,
    /// The session can be taken up.
    Ready,
    /// There is nothing to take up.
    Absent,
}

/// What is taken up of a session.
#[derive(Clone, Copy, Debug)]
pub struct Found {
    pub track_id: u64,
    /// The bits of a 64-bit number.
    pub position_secs: u64,
    /// The tracks to remove from the queue: the tail predates this run, and the
    /// mirror knows nothing of it.
    pub trim: Option<(u32, u32)>,
}

/// A cast session of a previous run that is being taken up again.
#[derive(Debug)]
pub struct Reattach {
    pub info: SessionInfo,
    pub stage: ReattachStage,
    /// How many tracks the speaker's queue holds.
    pub nr_tracks: u32,
    pub found: Found,
}

/// The speaker plays from the queue that the player filled.
pub open spec fn plays_queue(media: Option<MediaInfo>, queue_uri: Seq<char>) -> bool {
    media matches Some(media) && media.current_uri@ == queue_uri
}

/// The speaker is playing.
pub open spec fn is_playing(transport: Option<TransportState>) -> bool {
    transport matches Some(state) && state is Playing
}

/// The stage once the speaker told what it plays from, or did not answer.
pub open spec fn after_media(media: Option<MediaInfo>, queue_uri: Seq<char>) -> ReattachStage {
    if plays_queue(media, queue_uri) {
        ReattachStage::Transport
    } else {
        ReattachStage::Absent
    }
}

/// The stage once the speaker told what it does, or did not answer.
pub open spec fn after_transport(transport: Option<TransportState>) -> ReattachStage {
    if is_playing(transport) {
        ReattachStage::Position
    } else {
        ReattachStage::Absent
    }
}

/// The stage once the speaker told where it is, or did not answer.
pub open spec fn after_position(
    position: Option<PositionInfo>,
    track_id: Option<u64>,
) -> ReattachStage {
    if position is Some && track_id is Some {
        ReattachStage::Ready
    } else {
        ReattachStage::Absent
    }
}

/// What is taken up, by where the speaker is in a queue of this length.
pub open spec fn found_at(nr_tracks: u32, position: PositionInfo, track_id: u64) -> Found {
    Found {
        track_id,
        position_secs: or_zero(position.position_secs),
        trim: tail_range(nr_tracks, position.track_nr),
    }
}

/// Begin to take up the session with the group that was cast to last, if discovery
/// saw it.
pub fn sonos_try_reattach(uuid: &str, groups: Option<&Vec<SonosGroupInfo>>) -> (begun: Option<
    Reattach,
>)
    ensures
        match groups {
            Some(groups) => match begun {
                Some(begun) => {
                    &&& begun.stage is Media
                    &&& exists|k: int| #[trigger]
                        is_group_at(groups@, uuid@, k) && begun.info == sonos::session_of(groups@[k])
                },
                None => no_group(groups@, uuid@),
            },
            None => begun is None,
        },
{
    let groups = match groups {
        Some(groups) => groups,
        None => {
            return None;
        },
    };
    match find_group(groups, uuid) {
        Some(info) => Some(
            Reattach {
                info,
                stage: ReattachStage::Media,
                nr_tracks: 0,
                found: Found { track_id: 0, position_secs: 0, trim: None },
            },
        ),
        None => None,
    }
}

impl Reattach {
    /// The speaker told what it plays from, or did not answer.
    pub fn on_media(&mut self, media: Option<MediaInfo>, queue_uri: &str)
        requires
            old(self).stage is Media,
        ensures
            final(self).info == old(self).info,
            final(self).stage == after_media(media, queue_uri@),
            final(self).stage is Transport ==> final(self).nr_tracks == media->0.nr_tracks,
    {
        self.stage = ReattachStage::Absent;
        if let Some(media) = media {
            if text::same_text(media.current_uri.as_str(), queue_uri) {
                self.stage = ReattachStage::Transport;
                self.nr_tracks = media.nr_tracks;
            }
        }
    }

    /// The speaker told what it does, or did not answer.
    pub fn on_transport(&mut self, transport: Option<TransportState>)
        requires
            old(self).stage is Transport,
        ensures
            final(self).info == old(self).info,
            final(self).nr_tracks == old(self).nr_tracks,
            final(self).stage == after_transport(transport),
    {
        self.stage = match transport {
            Some(TransportState::Playing) => ReattachStage::Position,
            _ => ReattachStage::Absent,
        };
    }

    /// The speaker told where it is, or did not answer. The track has to be one of
    /// TIDAL's: `track_id` is what its URI says.
    pub fn on_position(&mut self, position: Option<PositionInfo>, track_id: Option<u64>)
        requires
            old(self).stage is Position,
        ensures
            final(self).info == old(self).info,
            final(self).stage == after_position(position, track_id),
            final(self).stage is Ready ==> final(self).found == found_at(
                old(self).nr_tracks,
                position->0,
                track_id->0,
            ),
    {
        self.stage = ReattachStage::Absent;
        if let Some(position) = position {
            if let Some(track_id) = track_id {
                self.stage = ReattachStage::Ready;
                self.found = Found {
                    track_id,
                    position_secs: sonos_get_position(&position),
                    trim: range_after(self.nr_tracks, position.track_nr),
                };
            }
        }
    }

    /// Take the session up. The speaker plays the player's queue, trimmed to the
    /// current track, so the mirroring of the tail may resume at once. A volume or a
    /// mute that the speaker did not tell counts as 0 and off. Returns what the
    /// frontend needs, and whether another session is no longer watched.
    pub fn adopt(self, state: &mut SonosState, volume: Option<u8>, muted: Option<bool>) -> (adopted: (
        ReattachInfo,
        bool,
    ))
        requires
            self.stage is Ready,
        ensures
            adopted.0 == (ReattachInfo {
                session: self.info,
                track_id: self.found.track_id,
                position_secs: self.found.position_secs,
                volume: match volume {
                    Some(volume) => volume,
                    None => 0,
                },
                muted: muted == Some(true),
            }),
            adopted.1 == (old(state).session is Some),
            final(state).session == Some(self.info),
            final(state).groups == old(state).groups,
            final(state).mirror.tail() == Seq::<sonos::EntryView>::empty(),
            final(state).mirror.seeded,
            session_changed(*old(state), *final(state), Some(self.info), true),
    {
        let stopped = state.session.take().is_some();
        state.mirror.clear();
        state.mirror.seeded = true;
        assert(state.mirror.tail().len() == state.mirror.entries@.len());
        state.session = Some(self.info.clone());
        let adopted = ReattachInfo {
            session: self.info,
            track_id: self.found.track_id,
            position_secs: self.found.position_secs,
            volume: match volume {
                Some(volume) => volume,
                None => 0,
            },
            muted: match muted {
                Some(muted) => muted,
                None => false,
            },
        };
        (adopted, stopped)
    }
}

/// The stage that the speaker's answers lead to, each asked for only where the one
/// before it allows it.
pub open spec fn reattach_end(
    media: Option<MediaInfo>,
    queue_uri: Seq<char>,
    transport: Option<TransportState>,
    position: Option<PositionInfo>,
    track_id: Option<u64>,
) -> ReattachStage {
    let told_media = after_media(media, queue_uri);
    if !(told_media is Transport) {
        told_media
    } else {
        let told_transport = after_transport(transport);
        if !(told_transport is Position) {
            told_transport
        } else {
            after_position(position, track_id)
        }
    }
}

/// A session is taken up only while the speaker plays the player's queue: with its
/// answers in order, it comes to `Ready` exactly where all of them say so, and every
/// failure means that there is nothing to take up. After that the queue ends with the
/// current track.
pub proof fn law_reattach_needs_a_playing_queue(
    media: Option<MediaInfo>,
    queue_uri: Seq<char>,
    transport: Option<TransportState>,
    position: Option<PositionInfo>,
    track_id: Option<u64>,
)
    ensures
        reattach_end(media, queue_uri, transport, position, track_id) is Ready <==> {
            &&& media is Some && media->0.current_uri@ == queue_uri
            &&& transport is Some && transport->0 is Playing
            &&& position is Some
            &&& track_id is Some
        },
        media is None || transport is None || position is None || track_id is None
            ==> reattach_end(media, queue_uri, transport, position, track_id) is Absent,
        media is Some && position is Some && track_id is Some && position->0.track_nr > 0 ==> (
        match found_at(media->0.nr_tracks, position->0, track_id->0).trim {
            Some((first, count)) => first == position->0.track_nr + 1 && media->0.nr_tracks - count
                == position->0.track_nr,
            None => media->0.nr_tracks <= position->0.track_nr,
        }),
{
}

/// What the speaker plays.
#[derive(Debug)]
pub struct SonosNowPlaying {
    pub track_id: Option<u64>,
    pub state: TransportState,
    pub volume: u8,
    pub muted: bool,
}

/// Snapshot of the active session's transport. A volume or a mute that the speaker did
/// not tell counts as 0 and off.
pub fn sonos_get_now_playing(
    state: TransportState,
    track_id: Option<u64>,
    volume: Option<u8>,
    muted: Option<bool>,
) -> (playing: SonosNowPlaying)
    ensures
        playing == (SonosNowPlaying {
            track_id,
            state,
            volume: match volume {
                Some(volume) => volume,
                None => 0,
            },
            muted: muted == Some(true),
        }),
{
    SonosNowPlaying {
        track_id,
        state,
        volume: match volume {
            Some(volume) => volume,
            None => 0,
        },
        muted: match muted {
            Some(muted) => muted,
            None => false,
        },
    }
}

/// Where the speaker is in its track: the start where it does not tell. Seconds are
/// the bits of 64-bit numbers.
pub fn sonos_get_position(position: &PositionInfo) -> (secs: u64)
    ensures
        secs == or_zero(position.position_secs),
{
    match position.position_secs {
        Some(bits) => bits,
        None => 0,
    }
}

// ---------------------------------------------------------------------------
// Laws
// ---------------------------------------------------------------------------

/// Unpinning an address keeps every other one.
pub proof fn law_unpinning_keeps_the_others(ips: Seq<Seq<char>>, ip: Seq<char>, other: Seq<char>)
    requires
        other != ip,
    ensures
        without_ip(ips, ip).contains(other) <==> ips.contains(other),
        with_ip(ips, ip).contains(other) <==> ips.contains(other),
{
    broadcast use vstd::seq_lib::group_filter_ensures;

    if ips.contains(other) {
        let i = choose|i: int| 0 <= i < ips.len() && ips[i] == other;
        assert(is_other(ip)(ips[i]));
        ips.lemma_filter_contains(is_other(ip), i);
        if !ips.contains(ip) {
            assert(ips.push(ip)[i] == other);
        }
    }
    if without_ip(ips, ip).contains(other) {
        ips.lemma_filter_contains_rev(is_other(ip), other);
    }
    if with_ip(ips, ip).contains(other) && !ips.contains(ip) {
        let more = ips.push(ip);
        let i = choose|i: int| 0 <= i < more.len() && more[i] == other;
        assert(i < ips.len());
        assert(ips[i] == other);
    }
}

/// Every failure on the way is a failure of the command, but for two: a rejected bare URI is
/// tried in its other form, and a play mode that cannot be set is passed over. What succeeds
/// leads on in order: clear, add, set the queue, set the mode, start if that is asked for.
pub proof fn law_what_fails_ends_the_command(start: bool, error: SoneError)
    ensures
        stage_after(PlayStage::Clear, start, Err(error)) is Failed,
        stage_after(PlayStage::AddHttp, start, Err(error)) is Failed,
        stage_after(PlayStage::SetQueue, start, Err(error)) is Failed,
        stage_after(PlayStage::Start, start, Err(error)) is Failed,
        !(error is SonosUpnp) ==> stage_after(PlayStage::AddBare, start, Err(error)) is Failed,
        error is SonosUpnp ==> stage_after(PlayStage::AddBare, start, Err(error)) is AddHttp,
        stage_after(PlayStage::SetMode, start, Err(error)) == stage_after(
            PlayStage::SetMode,
            start,
            Ok(()),
        ),
        stage_after(PlayStage::Clear, start, Ok(())) is AddBare,
        stage_after(PlayStage::AddBare, start, Ok(())) is SetQueue,
        stage_after(PlayStage::AddHttp, start, Ok(())) is SetQueue,
        stage_after(PlayStage::SetQueue, start, Ok(())) is SetMode,
        start ==> stage_after(PlayStage::SetMode, start, Ok(())) is Start,
        !start ==> stage_after(PlayStage::SetMode, start, Ok(())) is Done,
        stage_after(PlayStage::Start, start, Ok(())) is Done,
{
}

/// A failure is answered with its own error, but for the second URI, whose failure is
/// answered with the rejection of the first.
pub proof fn law_the_first_rejection_is_answered(play: PlayTrack, error: SoneError)
    ensures
        !(play.stage is AddHttp) ==> play.answer(Err(error)) == error,
        play.stage is AddHttp ==> (play.first_error matches Some(first) ==> play.answer(Err(error))
            == first),
{
}

/// Each stage of a track calls for its own step.
pub proof fn law_each_stage_has_its_step(
    step: PlayStep,
    stage: PlayStage,
    groups: Seq<SonosGroupInfo>,
    error: SoneError,
)
    requires
        is_step_of(step, stage, groups, error),
    ensures
        step is AddBare <==> stage is AddBare,
        step is AddHttp <==> stage is AddHttp,
        step is SetQueue <==> stage is SetQueue,
        step is SetMode <==> stage is SetMode,
        step is Start <==> stage is Start,
        step is Done <==> stage is Done,
        step is Failed <==> stage is Failed,
        step matches PlayStep::Failed(answer) ==> answer == error,
        step matches PlayStep::AddHttp { account_serial } ==> (first_serial(groups) matches Some(
            serial,
        ) ==> account_serial == serial),
        step matches PlayStep::AddHttp { account_serial } ==> first_serial(groups) is None
            ==> account_serial@ == "1"@,
{
}

/// The account is that of the first group that has one.
pub proof fn law_the_first_linked_account_is_used(groups: Seq<SonosGroupInfo>, k: int)
    requires
        0 <= k < groups.len(),
        forall|j: int| 0 <= j < k ==> (#[trigger] groups[j]).tidal_serial is None,
        groups[k].tidal_serial is Some,
    ensures
        first_serial(groups) == groups[k].tidal_serial,
    decreases groups.len(),
{
    if k > 0 {
        let rest = groups.drop_first();
        assert(groups[0].tidal_serial is None);
        assert forall|j: int| 0 <= j < k - 1 implies (#[trigger] rest[j]).tidal_serial is None by {
            assert(rest[j] == groups[j + 1]);
        }
        law_the_first_linked_account_is_used(rest, k - 1);
    }
}

/// A session that ends is no longer watched, and its own speaker, no other, is paused, only
/// where that is asked for.
pub proof fn law_the_ended_sessions_speaker_is_paused(
    end: SessionEnd,
    session: Option<SessionInfo>,
    pause: bool,
)
    requires
        ends(end, session, pause),
    ensures
        end.stopped <==> session is Some,
        end.pause is Some <==> session is Some && pause,
        end.pause matches Some(ip) ==> ip == session->0.coordinator_ip,
{
}

/// The up-next list is the frontend's, track by track.
pub proof fn law_the_up_next_list_is_the_frontends<M>(tracks: Seq<TailTrack<M>>, i: int)
    requires
        0 <= i < tracks.len(),
    ensures
        up_next(tracks).len() == tracks.len(),
        up_next(tracks)[i].track_id == tracks[i].track_id,
        up_next(tracks)[i].qid == tracks[i].qid@,
{
}

/// Nothing is sent to a speaker that does not hold the current track yet, nor to one whose
/// tail matches; a tail that the list goes on from is added to, from its end; any other is
/// looked at first.
pub proof fn law_a_sync_begins_where_it_must(
    sync: SyncTail,
    mirror: Mirror,
    desired: Seq<sonos::EntryView>,
)
    requires
        begins_sync(sync, mirror, desired),
        mirror.tail().len() <= usize::MAX,
    ensures
        sync.list() == desired,
        !mirror.seeded ==> sync.stage is Done,
        mirror.seeded && mirror.tail() == desired ==> sync.stage is Done,
        mirror.seeded && mirror.tail() != desired ==> !(sync.stage is Done),
        sync.stage is Add ==> sync.next == mirror.tail().len() && mirror.tail()
            == desired.take(mirror.tail().len() as int),
        mirror.seeded && desired.len() < mirror.tail().len() ==> sync.stage is Ask,
{
    sonos::law_a_tail_is_wiped_only_where_it_differs(mirror.tail(), desired, 0);
    if desired.len() < mirror.tail().len() {
        sonos::law_a_tail_is_wiped_only_where_it_differs(
            mirror.tail(),
            desired,
            desired.len() as int,
        );
    }
}

/// The current track is never removed: the tail begins behind it, and a queue that plays
/// nothing yet keeps its first track.
pub proof fn law_the_current_track_stays(nr_tracks: u32, track_nr: u32)
    ensures
        current_nr(track_nr) >= 1,
        track_nr >= 1 ==> current_nr(track_nr) == track_nr,
        tail_range(nr_tracks, current_nr(track_nr)) matches Some((first, count)) ==> first
            > track_nr && first >= 2 && count >= 1,
        tail_range(nr_tracks, 0) is None,
{
}

/// What is taken up of a session is what the speaker told: the track, and where it is in it,
/// the start where it did not tell.
pub proof fn law_what_the_speaker_told_is_taken_up(
    nr_tracks: u32,
    position: PositionInfo,
    track_id: u64,
)
    ensures
        found_at(nr_tracks, position, track_id).track_id == track_id,
        position.position_secs matches Some(bits) ==> found_at(
            nr_tracks,
            position,
            track_id,
        ).position_secs == bits,
        position.position_secs is None ==> found_at(nr_tracks, position, track_id).position_secs
            == 0,
{
}

/// A group is told by its coordinator: the one that is found is coordinated by that speaker,
/// and there is one exactly where some group is.
pub proof fn law_a_group_is_told_by_its_coordinator(
    groups: Seq<SonosGroupInfo>,
    uuid: Seq<char>,
    k: int,
)
    requires
        0 <= k < groups.len(),
        groups[k].group.coordinator_uuid@ == uuid,
    ensures
        !no_group(groups, uuid),
        forall|j: int| #[trigger]
            is_group_at(groups, uuid, j) ==> 0 <= j <= k
                && groups[j].group.coordinator_uuid@ == uuid,
{
    assert(groups[k].group.coordinator_uuid@ == uuid);
}

/// Whenever the session changes, what was mirrored is forgotten and the groups are not; the
/// session is the one that was asked for, and a tail may follow only where the caller says
/// that the current track is there.
pub proof fn law_a_changed_session_forgets_the_tail(
    before: SonosState,
    after: SonosState,
    session: Option<SessionInfo>,
    seeded: bool,
)
    requires
        session_changed(before, after, session, seeded),
    ensures
        after.mirror.tail().len() == 0,
        after.mirror.seeded == seeded,
        after.session == session,
        after.groups@ == before.groups@,
{
}

} // verus!
