use std::collections::VecDeque;

use sone::commands::sonos::{
    discovered_group, find_group, last_group, manual_ip, remember_group, session_info,
    sonos_add_manual_ip, sonos_connect, sonos_disconnect, sonos_get_manual_ips,
    sonos_get_now_playing, sonos_get_position, sonos_play_track, sonos_remove_manual_ip,
    sonos_sync_queue_tail, sonos_try_reattach, MediaInfo, PlayStage, PlayStep, PositionInfo,
    Reattach, ReattachStage, SyncStage, TailTrack, TransportState, EVENT_QUEUE_RESET,
};
use sone::error::SoneError;
use sone::settings::Settings;
use sone::sonos::{
    plan_sync, MirrorEntry, SessionInfo, SonosGroup, SonosGroupInfo, SonosState, SyncPlan,
};

fn group(uuid: &str, serial: Option<&str>) -> SonosGroupInfo {
    SonosGroupInfo {
        group: SonosGroup {
            coordinator_uuid: uuid.into(),
            coordinator_ip: format!("ip-{uuid}"),
            name: format!("room {uuid}"),
        },
        tidal_serial: serial.map(|s| s.to_string()),
    }
}

fn info(uuid: &str) -> SessionInfo {
    SessionInfo {
        coordinator_ip: format!("ip-{uuid}"),
        coordinator_uuid: uuid.into(),
        room_name: format!("room {uuid}"),
    }
}

fn casting() -> SonosState {
    let mut state = SonosState::new();
    state.groups = vec![group("A", None), group("B", Some("7")), group("C", Some("8"))];
    sonos_connect(&mut state, info("A"));
    state
}

fn entries(ids: &[u64]) -> Vec<MirrorEntry> {
    ids.iter().map(|&id| MirrorEntry { track_id: id, qid: format!("q{id}") }).collect()
}

fn mirror(ids: &[u64]) -> VecDeque<MirrorEntry> {
    entries(ids).into()
}

fn tail(ids: &[u64]) -> Vec<TailTrack<()>> {
    ids.iter().map(|&id| TailTrack { track_id: id, qid: format!("q{id}"), meta: () }).collect()
}

fn mirrored(state: &SonosState) -> Vec<u64> {
    state.mirror.entries.iter().map(|e| e.track_id).collect()
}

#[test]
fn pinned_addresses_are_kept_once() {
    assert!(sonos_get_manual_ips(None).is_empty());
    let ip = manual_ip(" 10.0.0.2\n");
    assert_eq!(ip, "10.0.0.2");
    let s = sonos_add_manual_ip(None, &ip);
    let s = sonos_add_manual_ip(Some(s), "10.0.0.3");
    let s = sonos_add_manual_ip(Some(s), "10.0.0.2");
    assert_eq!(s.sonos_manual_ips, vec!["10.0.0.2", "10.0.0.3"]);
    let s = sonos_remove_manual_ip(Some(s), "10.0.0.2");
    assert_eq!(s.sonos_manual_ips, vec!["10.0.0.3"]);
    let s = sonos_remove_manual_ip(Some(s), "10.0.0.9");
    assert_eq!(sonos_get_manual_ips(Some(s)), vec!["10.0.0.3"]);
}

#[test]
fn groups_are_found_by_their_coordinator() {
    let groups = vec![group("A", None), group("B", None)];
    assert_eq!(find_group(&groups, "B").unwrap().coordinator_ip, "ip-B");
    assert_eq!(find_group(&groups, "B").unwrap().room_name, "room B");
    assert!(find_group(&groups, "Z").is_none());
    assert_eq!(discovered_group(&groups, "A").unwrap().coordinator_uuid, "A");
    match discovered_group(&groups, "Z") {
        Err(SoneError::SonosUnreachable(m)) => assert_eq!(m, "group Z not found"),
        other => panic!("{other:?}"),
    }
}

#[test]
fn commands_need_a_session() {
    let mut state = SonosState::new();
    match session_info(&state) {
        Err(SoneError::SonosProtocol(m)) => assert_eq!(m, "no active Sonos session"),
        other => panic!("{other:?}"),
    }
    assert!(sonos_play_track(&mut state, true).is_err());
    assert!(sonos_sync_queue_tail(&state, &tail(&[1])).is_err());
    assert_eq!(session_info(&casting()).unwrap().coordinator_uuid, "A");
}

#[test]
fn switching_rooms_pauses_the_old_one() {
    let mut state = SonosState::new();
    let end = sonos_connect(&mut state, info("A"));
    assert!(!end.stopped);
    assert!(end.pause.is_none());
    let end = sonos_connect(&mut state, info("A"));
    assert!(end.stopped);
    assert!(end.pause.is_none());
    state.mirror.entries = mirror(&[1]);
    state.mirror.seeded = true;
    let end = sonos_connect(&mut state, info("B"));
    assert!(end.stopped);
    assert_eq!(end.pause.as_deref(), Some("ip-A"));
    assert!(state.mirror.entries.is_empty());
    assert!(!state.mirror.seeded);
    assert_eq!(state.session.as_ref().unwrap().coordinator_uuid, "B");
    let s = remember_group(Some(Settings::default()), "B".into());
    assert_eq!(last_group(&Some(s)).as_deref(), Some("B"));
    assert_eq!(last_group(&None), None);
    assert_eq!(EVENT_QUEUE_RESET, "sonos-queue-reset");
}

#[test]
fn disconnecting_ends_the_session() {
    let mut state = casting();
    state.mirror.seeded = true;
    let end = sonos_disconnect(&mut state, true);
    assert!(end.stopped);
    assert_eq!(end.pause.as_deref(), Some("ip-A"));
    assert!(state.session.is_none());
    assert!(!state.mirror.seeded);
    let end = sonos_disconnect(&mut state, true);
    assert!(!end.stopped);
    assert!(end.pause.is_none());
    let mut state = casting();
    assert!(sonos_disconnect(&mut state, false).pause.is_none());
}

fn upnp() -> SoneError {
    SoneError::SonosUpnp { action: "AddURIToQueue".into(), code: 800 }
}

#[test]
fn a_track_goes_into_the_queue() {
    let mut state = casting();
    state.mirror.entries = mirror(&[1, 2]);
    let (group, mut play) = sonos_play_track(&mut state, true).unwrap();
    assert_eq!(group.coordinator_ip, "ip-A");
    assert_eq!(play.stage, PlayStage::Clear);
    assert!(state.mirror.entries.is_empty());
    assert!(matches!(play.on_result(&mut state, Ok(())), PlayStep::AddBare));
    assert!(matches!(play.on_result(&mut state, Ok(())), PlayStep::SetQueue));
    assert!(matches!(play.on_result(&mut state, Ok(())), PlayStep::SetMode));
    // A play mode that cannot be set is no failure.
    assert!(matches!(play.on_result(&mut state, Err(upnp())), PlayStep::Start));
    assert!(!state.mirror.seeded);
    assert!(matches!(play.on_result(&mut state, Ok(())), PlayStep::Done));
    assert!(state.mirror.seeded);
}

#[test]
fn a_rejected_uri_is_tried_in_its_other_form() {
    let mut state = casting();
    let (_, mut play) = sonos_play_track(&mut state, false).unwrap();
    play.on_result(&mut state, Ok(()));
    match play.on_result(&mut state, Err(upnp())) {
        PlayStep::AddHttp { account_serial } => assert_eq!(account_serial, "7"),
        other => panic!("{other:?}"),
    }
    // When that fails too, the first error is the answer.
    match play.on_result(&mut state, Err(SoneError::Network("later".into()))) {
        PlayStep::Failed(SoneError::SonosUpnp { code, .. }) => assert_eq!(code, 800),
        other => panic!("{other:?}"),
    }
    assert!(!state.mirror.seeded);
    state.groups.clear();
    let (_, mut play) = sonos_play_track(&mut state, false).unwrap();
    play.on_result(&mut state, Ok(()));
    match play.on_result(&mut state, Err(upnp())) {
        PlayStep::AddHttp { account_serial } => assert_eq!(account_serial, "1"),
        other => panic!("{other:?}"),
    }
    assert!(matches!(play.on_result(&mut state, Ok(())), PlayStep::SetQueue));
    play.on_result(&mut state, Ok(()));
    assert!(matches!(play.on_result(&mut state, Ok(())), PlayStep::Done));
    assert!(state.mirror.seeded);
}

#[test]
fn a_lost_answer_is_not_tried_again() {
    let mut state = casting();
    let (_, mut play) = sonos_play_track(&mut state, true).unwrap();
    play.on_result(&mut state, Ok(()));
    match play.on_result(&mut state, Err(SoneError::Network("timeout".into()))) {
        PlayStep::Failed(SoneError::Network(m)) => assert_eq!(m, "timeout"),
        other => panic!("{other:?}"),
    }
    assert_eq!(play.stage, PlayStage::Failed);
    let (_, mut play) = sonos_play_track(&mut state, true).unwrap();
    assert!(matches!(play.on_result(&mut state, Err(upnp())), PlayStep::Failed(_)));
}

#[test]
fn a_tail_is_appended_or_rewritten() {
    assert_eq!(plan_sync(&mirror(&[1, 2]), &entries(&[1, 2])), SyncPlan::NoOp);
    assert_eq!(plan_sync(&mirror(&[]), &entries(&[])), SyncPlan::NoOp);
    assert_eq!(plan_sync(&mirror(&[1]), &entries(&[1, 2])), SyncPlan::Append { skip: 1 });
    assert_eq!(plan_sync(&mirror(&[]), &entries(&[1])), SyncPlan::Append { skip: 0 });
    assert_eq!(plan_sync(&mirror(&[1, 2]), &entries(&[1])), SyncPlan::Rewrite);
    assert_eq!(plan_sync(&mirror(&[2]), &entries(&[1, 2])), SyncPlan::Rewrite);
    let mut other = mirror(&[1]);
    other[0].qid = "else".into();
    assert_eq!(plan_sync(&other, &entries(&[1])), SyncPlan::Rewrite);
}

#[test]
fn an_extended_list_is_appended() {
    let mut state = casting();
    state.mirror.seeded = true;
    state.mirror.entries = mirror(&[1]);
    let mut sync = sonos_sync_queue_tail(&state, &tail(&[1, 2, 3])).unwrap();
    assert_eq!(sync.stage, SyncStage::Add);
    assert_eq!(sync.next, 1);
    sync.on_added(&mut state.mirror);
    // A failure here leaves what has landed.
    assert_eq!(mirrored(&state), vec![1, 2]);
    assert_eq!(sync.stage, SyncStage::Add);
    sync.on_added(&mut state.mirror);
    assert_eq!(sync.stage, SyncStage::Done);
    assert_eq!(mirrored(&state), vec![1, 2, 3]);
}

#[test]
fn a_changed_list_is_wiped_and_added_again() {
    let mut state = casting();
    state.mirror.seeded = true;
    state.mirror.entries = mirror(&[1, 2]);
    let mut sync = sonos_sync_queue_tail(&state, &tail(&[2])).unwrap();
    assert_eq!(sync.stage, SyncStage::Ask);
    assert_eq!(sync.on_queue(&mut state.mirror, 5, 3), Some((4, 2)));
    assert_eq!(mirrored(&state), vec![1, 2]);
    sync.on_removed(&mut state.mirror);
    assert!(mirrored(&state).is_empty());
    sync.on_added(&mut state.mirror);
    assert_eq!(sync.stage, SyncStage::Done);
    assert_eq!(mirrored(&state), vec![2]);
    // Nothing to remove, nothing to add.
    let mut sync = sonos_sync_queue_tail(&state, &tail(&[])).unwrap();
    assert_eq!(sync.on_queue(&mut state.mirror, 1, 0), None);
    assert_eq!(sync.stage, SyncStage::Done);
    assert!(mirrored(&state).is_empty());
}

#[test]
fn a_queue_that_plays_nothing_yet_keeps_its_first_track() {
    let mut state = casting();
    state.mirror.seeded = true;
    state.mirror.entries = mirror(&[1]);
    let mut sync = sonos_sync_queue_tail(&state, &tail(&[2])).unwrap();
    assert_eq!(sync.on_queue(&mut state.mirror, 4, 0), Some((2, 3)));
    assert_eq!(sync.stage, SyncStage::Remove);
}

#[test]
fn nothing_is_mirrored_before_the_track_is_there() {
    let state = casting();
    let sync = sonos_sync_queue_tail(&state, &tail(&[1, 2])).unwrap();
    assert_eq!(sync.stage, SyncStage::Done);
}

fn begun() -> Reattach {
    sonos_try_reattach("A", Some(&vec![group("A", None)])).unwrap()
}

fn media() -> Option<MediaInfo> {
    Some(MediaInfo { nr_tracks: 4, current_uri: "x-rincon-queue:A#0".into() })
}

fn position(track_nr: u32, secs: Option<f64>) -> PositionInfo {
    PositionInfo { track_nr, track_uri: "uri".into(), position_secs: secs.map(f64::to_bits) }
}

#[test]
fn reattaching_needs_a_playing_queue() {
    let groups = vec![group("A", None)];
    assert!(sonos_try_reattach("A", None).is_none());
    assert!(sonos_try_reattach("B", Some(&groups)).is_none());
    assert_eq!(begun().info.room_name, "room A");
    for answer in [None, Some(MediaInfo { nr_tracks: 4, current_uri: "x-file:a".into() })] {
        let mut r = begun();
        r.on_media(answer, "x-rincon-queue:A#0");
        assert_eq!(r.stage, ReattachStage::Absent);
    }
    for answer in [None, Some(TransportState::Other("STOPPED".into()))] {
        let mut r = begun();
        r.on_media(media(), "x-rincon-queue:A#0");
        r.on_transport(answer);
        assert_eq!(r.stage, ReattachStage::Absent);
    }
    for (answer, track) in [(None, Some(1)), (Some(position(1, None)), None)] {
        let mut r = begun();
        r.on_media(media(), "x-rincon-queue:A#0");
        r.on_transport(Some(TransportState::Playing));
        r.on_position(answer, track);
        assert_eq!(r.stage, ReattachStage::Absent);
    }
}

fn ready(track_nr: u32) -> Reattach {
    let mut r = begun();
    assert_eq!(r.stage, ReattachStage::Media);
    r.on_media(media(), "x-rincon-queue:A#0");
    assert_eq!(r.stage, ReattachStage::Transport);
    r.on_transport(Some(TransportState::Playing));
    assert_eq!(r.stage, ReattachStage::Position);
    r.on_position(Some(position(track_nr, Some(12.5))), Some(77));
    assert_eq!(r.stage, ReattachStage::Ready);
    r
}

#[test]
fn a_reattached_session_is_trimmed_and_seeded() {
    let r = ready(2);
    assert_eq!(r.found.trim, Some((3, 2)));
    let mut state = casting();
    sonos_connect(&mut state, info("B"));
    state.mirror.entries = mirror(&[1]);
    let (adopted, stopped) = r.adopt(&mut state, Some(20), None);
    assert!(stopped);
    assert_eq!(adopted.session.coordinator_uuid, "A");
    assert_eq!(adopted.track_id, 77);
    assert_eq!(f64::from_bits(adopted.position_secs), 12.5);
    assert_eq!(adopted.volume, 20);
    assert!(!adopted.muted);
    assert!(state.mirror.seeded);
    assert!(state.mirror.entries.is_empty());
    assert_eq!(state.session.as_ref().unwrap().coordinator_uuid, "A");
    let (adopted, stopped) = ready(4).adopt(&mut SonosState::new(), None, Some(true));
    assert!(!stopped);
    assert_eq!(adopted.volume, 0);
    assert!(adopted.muted);
    // A queue that plays no track of its own is not trimmed.
    assert_eq!(ready(0).found.trim, None);
    assert_eq!(ready(4).found.trim, None);
}

#[test]
fn what_a_speaker_does_not_tell_is_off() {
    let now = sonos_get_now_playing(TransportState::Playing, Some(3), None, None);
    assert_eq!(now.track_id, Some(3));
    assert_eq!(now.volume, 0);
    assert!(!now.muted);
    let now = sonos_get_now_playing(TransportState::Other("X".into()), None, Some(9), Some(true));
    assert_eq!(now.volume, 9);
    assert!(now.muted);
    assert_eq!(sonos_get_position(&position(1, None)), 0);
    assert_eq!(f64::from_bits(sonos_get_position(&position(1, Some(3.5)))), 3.5);
}
