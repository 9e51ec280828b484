use sone::clock::{millis_of, now_ms, now_secs, seconds_of, Moment};
use sone::tidal_report::event::{SendOutcome, SessionEvent, SourceType};
use sone::tidal_report::queue::{
    entries_from, OutboxFile, QueueEntry, ReportQueue, MAX_ENTRIES,
};
use sone::tidal_report::reporter::{
    build_body, dispatch, Account, Post, PostStage, TidalReporter,
};
use sone::tidal_report::session::{PlaySession, StreamMeta};

const SEC: u64 = 1_000_000_000;

fn session(duration_secs: u32, played_secs: u64) -> PlaySession {
    PlaySession {
        session_id: "s".into(),
        requested_product_id: 1,
        duration_secs,
        meta: StreamMeta::default(),
        source: None,
        started_at_ms: 0,
        accumulated_ns: played_secs * SEC,
        last_resumed_at: None, // elapsed() == accumulated_ns
        reported: false,
    }
}

fn at(secs: u64) -> Moment {
    Moment { wall_ms: 1_000_000 + secs as i64 * 1000, tick_ns: secs * SEC }
}

fn meta(at_ms: i64) -> StreamMeta {
    StreamMeta {
        actual_product_id: Some(77),
        quality: "HI_RES_LOSSLESS".into(),
        audio_mode: "DOLBY_ATMOS".into(),
        presentation: "PREVIEW".into(),
        at_ms,
    }
}

fn account() -> Account {
    Account { access_token: "tok".into(), client_id: "cid".into() }
}

#[test]
fn threshold_is_flat_30_seconds() {
    // TIDAL's rule: a play over 30 seconds counts, regardless of track length.
    assert!(session(200, 30).meets_threshold(0)); // exactly 30s
    assert!(session(200, 45).meets_threshold(0)); // 45s of a 3-min track, less than half of it
    assert!(session(1000, 30).meets_threshold(0)); // 30s of a long track
    assert!(!session(200, 29).meets_threshold(0)); // under 30s
    assert!(!session(25, 25).meets_threshold(0)); // 25s track played fully = 25s
}

#[test]
fn end_position_clamps_and_natural_end_is_full() {
    // Overshoot clamps to duration on a manual close.
    let ev = session(200, 500).to_event(false, at(0));
    assert_eq!(ev.end_asset_pos_ns, 200 * SEC);
    // Natural end reports the full duration.
    let ev = session(200, 100).to_event(true, at(0));
    assert_eq!(ev.end_asset_pos_ns, 200 * SEC);
}

#[test]
fn pause_excludes_paused_time_from_elapsed() {
    let mut s = session(200, 10);
    s.resume(5 * SEC); // start counting
    s.pause(5 * SEC); // fold live (0s) back
    let e = s.elapsed(500 * SEC);
    assert_eq!(e, 10 * SEC, "elapsed drifted: {e}");
}

#[test]
fn only_played_time_counts() {
    let mut s = session(200, 0);
    s.resume(100 * SEC);
    s.pause(110 * SEC);
    s.pause(150 * SEC);
    s.resume(200 * SEC);
    s.resume(205 * SEC);
    s.on_seek(208 * SEC);
    assert_eq!(s.elapsed(215 * SEC), 25 * SEC);
    s.pause(215 * SEC);
    s.on_seek(300 * SEC);
    assert_eq!(s.last_resumed_at, None);
    assert_eq!(s.elapsed(400 * SEC), 25 * SEC);
    // A tick before the last resume adds nothing.
    s.resume(500 * SEC);
    assert_eq!(s.elapsed(499 * SEC), 25 * SEC);
}

#[test]
fn a_close_before_the_end_reports_where_the_listener_left() {
    let ev = session(200, 31).to_event(false, at(0));
    assert_eq!(ev.end_asset_pos_ns, 31 * SEC);
    assert_eq!(ev.actual_product_id, "1");
    assert_eq!(ev.quality, "LOSSLESS");
    assert_eq!(ev.audio_mode, "STEREO");
    assert_eq!(ev.presentation, "FULL");
}

fn reporter() -> TidalReporter {
    TidalReporter::new(None, true)
}

fn start(r: &mut TidalReporter, track: u64, now: Moment) -> Option<SessionEvent> {
    r.on_track_started(Some(track), 200, Some(("album".into(), "alb".into())), now)
}

#[test]
fn a_finished_play_is_reported_once() {
    let mut r = reporter();
    r.note_stream_resolved(5, meta(1));
    assert!(start(&mut r, 5, at(0)).is_none());
    let ev = r.try_finish(at(60)).unwrap();
    assert_eq!(ev.requested_product_id, 5);
    assert_eq!(ev.actual_product_id, "77");
    assert_eq!(ev.quality, "HI_RES_LOSSLESS");
    assert_eq!(ev.audio_mode, "DOLBY_ATMOS");
    assert_eq!(ev.presentation, "PREVIEW");
    assert_eq!(ev.source.unwrap().1, "alb");
    assert_eq!(ev.start_ts_ms, 1_000_000);
    assert_eq!(ev.end_ts_ms, 1_060_000);
    assert_eq!(ev.end_asset_pos_ns, 200 * SEC);
    assert_eq!(ev.session_id.len(), 36);
    // A stale second end, the next track and a stop report nothing more.
    assert!(r.try_finish(at(61)).is_none());
    assert!(start(&mut r, 6, at(62)).is_none());
    assert!(r.on_track_stopped(at(63)).is_none());
}

#[test]
fn a_displaced_play_is_reported_if_it_counts() {
    let mut r = reporter();
    start(&mut r, 5, at(0));
    assert!(start(&mut r, 6, at(29)).is_none());
    let ev = start(&mut r, 7, at(59)).unwrap();
    assert_eq!(ev.requested_product_id, 6);
    assert_eq!(ev.end_asset_pos_ns, 30 * SEC);
    let ev = r.on_track_stopped(at(100)).unwrap();
    assert_eq!(ev.requested_product_id, 7);
    assert!(r.current.is_none());
}

#[test]
fn a_start_without_a_track_ends_the_play() {
    let mut r = reporter();
    start(&mut r, 5, at(0));
    r.note_stream_resolved(9, meta(1));
    let ev = r.on_track_started(None, 0, None, at(40));
    assert_eq!(ev.unwrap().requested_product_id, 5);
    assert!(r.current.is_none());
    assert_eq!(r.pending_meta.len(), 1);
}

#[test]
fn unknown_containers_are_no_source() {
    let mut r = reporter();
    r.on_track_started(Some(5), 200, Some(("radio".into(), "x".into())), at(0));
    assert!(r.current.as_ref().unwrap().source.is_none());
    r.on_track_started(Some(5), 200, Some(("Mix".into(), "x".into())), at(0));
    let source = r.current.as_ref().unwrap().source.as_ref().unwrap();
    assert_eq!(source.0, SourceType::Mix);
}

#[test]
fn a_disabled_reporter_does_nothing() {
    let mut r = TidalReporter::new(None, false);
    r.note_stream_resolved(5, meta(1));
    assert!(start(&mut r, 5, at(0)).is_none());
    assert!(r.current.is_none());
    assert!(r.pending_meta.is_empty());
    assert!(r.try_finish(at(60)).is_none());
    assert!(r.on_track_stopped(at(60)).is_none());
    assert!(r.flush(at(60)).is_none());
    assert_eq!(r.drain_queue().remaining, 0);
    r.set_enabled(true);
    assert!(r.enabled());
    start(&mut r, 5, at(0));
    r.set_enabled(false);
    r.on_pause(at(5));
    r.on_seek(at(6));
    r.on_resume(at(7));
    assert_eq!(r.current.as_ref().unwrap().last_resumed_at, Some(0));
}

#[test]
fn pauses_go_through_the_reporter() {
    let mut r = reporter();
    start(&mut r, 5, at(0));
    r.on_pause(at(20));
    r.on_resume(at(100));
    r.on_seek(at(105));
    assert!(r.try_finish(at(109)).is_none());
    let ev = r.flush(at(110)).unwrap();
    assert_eq!(ev.end_asset_pos_ns, 30 * SEC);
    assert!(r.current.is_none());
}

#[test]
fn attributes_that_wait_are_bounded() {
    let mut r = reporter();
    for id in 0..40u64 {
        r.note_stream_resolved(id, meta(100 + id as i64));
        assert!(r.pending_meta.len() <= 16);
    }
    assert!(r.pending_meta.contains_key(&39));
    assert!(r.pending_meta.contains_key(&24));
    assert!(!r.pending_meta.contains_key(&23));
    // The newcomer goes if it is the oldest itself.
    r.note_stream_resolved(99, meta(1));
    assert!(!r.pending_meta.contains_key(&99));
    // Noting a track again replaces its attributes.
    r.note_stream_resolved(39, meta(500));
    assert_eq!(r.pending_meta[&39].at_ms, 500);
    assert_eq!(r.pending_meta.len(), 16);
}

#[test]
fn a_logout_reports_nothing() {
    let mut r = TidalReporter::new(outbox(vec![entry("a", 0, 0)]), true);
    r.note_stream_resolved(5, meta(1));
    start(&mut r, 6, at(0));
    r.clear();
    assert_eq!(r.queue_size(), 0);
    assert!(r.pending_meta.is_empty());
    assert!(r.on_track_stopped(at(60)).is_none());
    assert!(r.enabled());
}

fn file(bytes: Vec<u8>) -> Option<OutboxFile> {
    Some(OutboxFile { bytes, entries: None })
}

fn outbox(entries: Vec<QueueEntry>) -> Option<OutboxFile> {
    file(ReportQueue::with_entries(Some(entries)).stored())
}

#[test]
fn a_stored_outbox_comes_back() {
    let q = ReportQueue::with_entries(Some(vec![
        entry("{\"a\":\"\u{e9}\\n\"}\u{1}", 3, -7),
        entry("", u32::MAX, i64::MIN),
        entry("\u{1f3b5}", 0, i64::MAX),
    ]));
    let again = ReportQueue::new(file(q.stored()));
    assert_eq!(again.len(), 3);
    for (a, b) in q.entries().iter().zip(again.entries()) {
        assert_eq!(a.body, b.body);
        assert_eq!(a.attempts, b.attempts);
        assert_eq!(a.queued_at, b.queued_at);
    }
    assert_eq!(ReportQueue::new(None).stored(), b"[]");
    assert_eq!(ReportQueue::new(file(b"[]".to_vec())).len(), 0);
}

#[test]
fn the_outbox_is_a_json_list_of_entries() {
    let q = ReportQueue::with_entries(Some(vec![entry("a\"b", 2, 5), entry("c", 0, -1)]));
    assert_eq!(
        String::from_utf8(q.stored()).unwrap(),
        r#"[{"body":"a\"b","attempts":2,"queued_at":5},{"body":"c","attempts":0,"queued_at":-1}]"#
    );
}

#[test]
fn another_file_is_what_the_caller_took_it_for() {
    for text in [
        r#" [{"body":"x","attempts":2,"queued_at":5}] "#,
        r#"[{"attempts":2,"body":"x","queued_at":5}]"#,
        r#"[{"body":"x","attempts":2,"queued_at":5,"extra":[]}]"#,
        r#"[["x",2,5]]"#,
    ] {
        let bytes = text.as_bytes().to_vec();
        let q = ReportQueue::new(Some(OutboxFile {
            bytes,
            entries: Some(vec![entry("x", 2, 5)]),
        }));
        assert_eq!(q.len(), 1, "{text}");
        assert_eq!(q.entries()[0].body, "x");
    }
}

#[test]
fn a_file_that_is_no_outbox_is_empty() {
    for text in [
        "",
        "not json",
        "{}",
        "[1]",
        r#"[{"body":"a","attempts":1}]"#,
        r#"[{"body":1,"attempts":1,"queued_at":1}]"#,
        r#"[{"body":"a","attempts":-1,"queued_at":1}]"#,
        r#"[{"body":"a","attempts":4294967296,"queued_at":1}]"#,
        r#"[{"body":"a","attempts":1,"queued_at":1.5}]"#,
        r#"[{"body":"a","attempts":1,"queued_at":1},null]"#,
        r#"[{"body":"a","body":"a","attempts":1,"queued_at":1}]"#,
    ] {
        assert_eq!(ReportQueue::new(file(text.as_bytes().to_vec())).len(), 0, "{text}");
    }
    assert_eq!(ReportQueue::new(file(vec![0xff])).len(), 0);
    assert_eq!(ReportQueue::new(None).len(), 0);
    assert!(entries_from(&vec![Vec::new()]).is_none());
}

fn entry(body: &str, attempts: u32, queued_at: i64) -> QueueEntry {
    QueueEntry { body: body.into(), attempts, queued_at }
}

#[test]
fn a_batch_leaves_the_rest_in_order() {
    let mut q = ReportQueue::with_entries(Some(vec![
        entry("a", 0, 0),
        entry("worn", 10, 0),
        entry("b", 9, 0),
        entry("old", 0, -1_209_600),
        entry("c", 3, -1_209_599),
    ]));
    assert_eq!(q.len(), 5);
    let taken = q.take_batch(2, 1);
    assert_eq!(taken, vec![("a".to_string(), 0), ("b".to_string(), 9)]);
    assert_eq!(q.len(), 1);
    assert_eq!(q.take_batch(5, 1), vec![("c".to_string(), 3)]);
    assert!(q.take_batch(5, 1).is_empty());
}

#[test]
fn requeued_items_come_back_with_one_more_attempt() {
    let mut q = ReportQueue::new(None);
    assert!(!q.requeue(Vec::new(), 5));
    assert!(q.requeue(vec![("a".into(), 0), ("b".into(), 9), ("c".into(), 8)], 5));
    assert_eq!(q.take_batch(10, 6), vec![("a".to_string(), 1), ("c".to_string(), 9)]);
    assert!(q.requeue(vec![("gone".into(), u32::MAX)], 5));
    assert_eq!(q.len(), 0);
}

#[test]
fn an_event_is_tried_ten_times() {
    let mut q = ReportQueue::new(None);
    let mut items = vec![("a".to_string(), 0)];
    let mut tries = 0;
    while !items.is_empty() {
        tries += 1;
        q.requeue(items, 0);
        items = q.take_batch(10, 0);
    }
    assert_eq!(tries, 10);
}

#[test]
fn the_outbox_keeps_the_newest() {
    let mut q = ReportQueue::new(None);
    for i in 0..60 {
        let items = (0..10).map(|k| (format!("{}", i * 10 + k), 0)).collect();
        q.requeue(items, 7);
    }
    assert_eq!(q.len(), MAX_ENTRIES);
    assert_eq!(q.entries()[0].body, "100");
    assert_eq!(q.entries()[0].attempts, 1);
    assert_eq!(q.entries()[0].queued_at, 7);
    assert_eq!(q.entries()[499].body, "599");
    q.clear();
    assert_eq!(q.len(), 0);
}

fn post() -> Post {
    Post::new(vec![("body-a".into(), 0), ("body-b".into(), 3)])
}

#[test]
fn an_accepted_post_is_done() {
    let mut p = post();
    assert_eq!(p.stage, PostStage::Token);
    let request = p.on_account(Some(account()), 42).unwrap();
    assert_eq!(request.authorization, "Bearer tok");
    assert_eq!(request.form[1].1, "body-a");
    assert_eq!(request.form[9].1, "body-b");
    p.on_reply(SendOutcome::Accepted);
    assert_eq!(p.stage, PostStage::Done);
    let mut r = reporter();
    assert!(!r.settle(p, 0));
    assert_eq!(r.queue_size(), 0);
}

#[test]
fn a_refused_token_is_refreshed_once() {
    let mut p = post();
    p.on_account(Some(account()), 0);
    p.on_reply(SendOutcome::AuthFailed);
    assert_eq!(p.stage, PostStage::Refresh);
    let fresh = Account { access_token: "fresh".into(), client_id: "cid".into() };
    assert_eq!(p.on_account(Some(fresh), 0).unwrap().authorization, "Bearer fresh");
    p.on_reply(SendOutcome::AuthFailed);
    assert_eq!(p.stage, PostStage::Requeue);
    let mut r = reporter();
    assert!(r.settle(p, 0));
    assert_eq!(r.queue_size(), 2);
}

#[test]
fn posts_without_an_account_or_a_server_are_requeued() {
    let mut p = post();
    assert!(p.on_account(None, 0).is_none());
    assert_eq!(p.stage, PostStage::Requeue);
    let mut p = post();
    p.on_account(Some(account()), 0);
    p.on_reply(SendOutcome::Retryable);
    assert_eq!(p.stage, PostStage::Requeue);
    let mut p = post();
    p.on_account(Some(account()), 0);
    p.on_reply(SendOutcome::AuthFailed);
    assert!(p.on_account(None, 0).is_none());
    assert_eq!(p.stage, PostStage::Requeue);
    let mut p = post();
    p.on_account(Some(account()), 0);
    p.on_reply(SendOutcome::SenderFault);
    assert_eq!(p.stage, PostStage::Done);
    assert_eq!(Post::new(Vec::new()).stage, PostStage::Done);
}

#[test]
fn a_report_needs_a_token() {
    let ev = session(200, 40).to_event(false, at(0));
    assert!(build_body(&ev, None).is_none());
    assert!(dispatch(&ev, None).is_none());
    let post = dispatch(&ev, Some("opaque")).unwrap();
    assert_eq!(post.items.len(), 1);
    assert_eq!(post.items[0].1, 0);
    assert!(post.items[0].0.contains("\"playbackSessionId\":\"s\""));
    assert_eq!(post.stage, PostStage::Token);
}

#[test]
fn a_drain_ends_though_every_post_fails() {
    let entries = (0..25).map(|i| entry(&format!("{i}"), 0, 0)).collect();
    let mut r = TidalReporter::new(outbox(entries), true);
    let mut drain = r.drain_queue();
    assert_eq!(drain.remaining, 25);
    let mut batches = 0;
    while let Some(mut post) = r.next_batch(&mut drain, 0) {
        assert!(post.items.len() <= 10);
        post.on_account(None, 0);
        r.settle(post, 0);
        batches += 1;
    }
    assert_eq!(batches, 3);
    assert_eq!(r.queue_size(), 25);
    assert!(r.next_batch(&mut drain, 0).is_none());
}

#[test]
fn an_accepted_drain_empties_the_outbox() {
    let entries = (0..25).map(|i| entry(&format!("{i}"), 0, 0)).collect();
    let mut r = TidalReporter::new(outbox(entries), true);
    let mut drain = r.drain_queue();
    while let Some(mut post) = r.next_batch(&mut drain, 0) {
        post.on_account(Some(account()), 0);
        post.on_reply(SendOutcome::Accepted);
        assert!(!r.settle(post, 0));
    }
    assert_eq!(r.queue_size(), 0);
}

#[test]
fn clock_readings_are_whole_units() {
    assert_eq!(seconds_of(Some(1_999_999_999)), 1);
    assert_eq!(millis_of(Some(1_999_999_999)), 1999);
    assert_eq!(seconds_of(None), 0);
    assert_eq!(millis_of(None), 0);
    assert!(now_secs() > 1_600_000_000);
    assert!(now_ms() > 1_600_000_000_000);
}
