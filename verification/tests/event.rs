use base64::Engine;
use serde_json::Value;
use sone::tidal_report::event::{
    batch_form, bearer, body_with_uuid, build_body, build_headers, claims_from_members, classify,
    parse_claims, reply_outcome, sqs_form, sqs_form_with_ids, Claims, Reply, SendOutcome,
    SessionEvent, SourceType, APP_VERSION, EC_URL, MAX_BATCH,
};

fn sample(source: Option<(SourceType, String)>) -> SessionEvent {
    SessionEvent {
        session_id: "sess-123".into(),
        requested_product_id: 42,
        actual_product_id: "42".into(),
        quality: "LOSSLESS".into(),
        audio_mode: "STEREO".into(),
        presentation: "FULL".into(),
        source,
        start_ts_ms: 1_000,
        end_ts_ms: 201_000,
        end_asset_pos_ns: 200_000_000_000,
    }
}

fn claims() -> Claims {
    Claims { uid: Some(1), cid: Some(8017), sid: Some("sid-x".into()) }
}

fn parsed(text: &str) -> Value {
    serde_json::from_str(text).unwrap()
}

// The mobile shape (user + client objects) is what surfaces in Recently Played;
// guard against a regression to the web shape.
#[test]
fn body_is_mobile_shape() {
    let v = parsed(&build_body(&sample(None), &claims()));
    assert_eq!(v["group"], "play_log");
    assert_eq!(v["name"], "playback_session");
    assert_eq!(v["version"], 2);
    assert!(v.get("user").is_some(), "user object required");
    assert!(v.get("client").is_some(), "client object required");
    // client.token is the cid claim as a string.
    assert_eq!(v["client"]["token"], "8017");
    assert_eq!(v["client"]["platform"], "android");
    assert_eq!(v["client"]["deviceType"], "androidAuto");
    assert_eq!(v["user"]["id"], 1);
    assert_eq!(v["client"]["version"], APP_VERSION);
    assert_eq!(v["payload"]["playbackSessionId"], "sess-123");
    assert_eq!(v["payload"]["actions"].as_array().unwrap().len(), 2);
}

// Report as SONE-on-Linux, not the TIDAL app (verified to surface the same).
#[test]
fn headers_are_honest_identity() {
    let h = parsed(&build_headers("cid-x", "tok-y", 123));
    assert_eq!(h["app-name"], "SONE");
    assert_eq!(h["os-name"], "linux");
    assert_eq!(h["app-version"], APP_VERSION);
    assert_eq!(h["client-id"], "cid-x");
    assert_eq!(h["authorization"], "tok-y");
    assert_eq!(h["consent-category"], "NECESSARY");
}

// Absent source must be "" (empty string), never null: null fails validation.
#[test]
fn absent_source_is_empty_string_not_null() {
    let v = parsed(&build_body(&sample(None), &claims()));
    assert_eq!(v["payload"]["sourceType"], "");
    assert_eq!(v["payload"]["sourceId"], "");
}

#[test]
fn container_source_is_mapped() {
    let ev = sample(Some((SourceType::Playlist, "pl-9".into())));
    let v = parsed(&build_body(&ev, &claims()));
    assert_eq!(v["payload"]["sourceType"], "PLAYLIST");
    assert_eq!(v["payload"]["sourceId"], "pl-9");
}

#[test]
fn source_type_from_sone_strings() {
    assert!(matches!(SourceType::from_sone("album"), Some(SourceType::Album)));
    assert!(matches!(SourceType::from_sone("MIX"), Some(SourceType::Mix)));
    assert!(SourceType::from_sone("radio").is_none());
}

#[test]
fn classify_outcomes() {
    let ok = "<SendMessageBatchResponse><SendMessageBatchResultEntry><Id>x</Id></SendMessageBatchResultEntry></SendMessageBatchResponse>";
    assert!(matches!(classify(200, ok), SendOutcome::Accepted));
    assert!(matches!(
        classify(
            200,
            "<BatchResultErrorEntry><SenderFault>true</SenderFault></BatchResultErrorEntry>"
        ),
        SendOutcome::SenderFault
    ));
    assert!(matches!(classify(401, ""), SendOutcome::AuthFailed));
    assert!(matches!(classify(500, ""), SendOutcome::Retryable));
    assert!(matches!(classify(400, ""), SendOutcome::SenderFault));
}

#[test]
fn parse_claims_reads_uid_cid_sid() {
    // {"uid":173234555,"cid":8017,"sid":"abc"} as base64url, unsigned JWT.
    let payload = base64::engine::general_purpose::URL_SAFE_NO_PAD
        .encode(r#"{"uid":173234555,"cid":8017,"sid":"abc"}"#);
    let token = format!("h.{payload}.s");
    let c = parse_claims(&token);
    assert_eq!(c.uid, Some(173234555));
    assert_eq!(c.cid, Some(8017));
    assert_eq!(c.sid.as_deref(), Some("abc"));
}

#[test]
fn claims_of_a_padded_payload_are_read_too() {
    let payload = base64::engine::general_purpose::URL_SAFE.encode(r#"{"cid":9,"uid":"7"}"#);
    assert!(payload.ends_with('='));
    let c = parse_claims(&format!("h.{payload}.s"));
    assert_eq!(c.cid, Some(9));
    assert_eq!(c.sid, None);
}

#[test]
fn tokens_without_claims_have_none() {
    for token in ["", "opaque", "h.!!!.s", "h.e30.s", "h.W10.s"] {
        let c = parse_claims(token);
        assert_eq!(c.uid, None);
        assert_eq!(c.cid, None);
        assert_eq!(c.sid, None);
    }
    assert_eq!(claims_from_members(&Vec::new()).uid, None);
}

#[test]
fn a_body_is_spelled_exactly() {
    let ev = sample(Some((SourceType::Album, "a\"1".into())));
    let body = body_with_uuid(&ev, &claims(), "the-uuid");
    let expected = String::from(
        r#"{"client":{"deviceType":"androidAuto","platform":"android","token":"8017","version":"0.1.0"},"group":"play_log","name":"playback_session","payload":{"actions":[{"actionType":"PLAYBACK_START","assetPosition":0.0,"timestamp":1000},{"actionType":"PLAYBACK_STOP","assetPosition":200.0,"timestamp":201000}],"actualAssetPresentation":"FULL","actualAudioMode":"STEREO","actualProductId":"42","actualQuality":"LOSSLESS","endAssetPosition":200.0,"endTimestamp":201000,"isPostPaywall":true,"playbackSessionId":"sess-123","productType":"TRACK","requestedProductId":"42","sourceId":"a\"1","sourceType":"ALBUM","startAssetPosition":0.0,"startTimestamp":1000},"ts":201000,"user":{"clientId":8017,"id":1,"sessionId":"sid-x"},"uuid":"the-uuid","version":2}"#,
    );
    assert_eq!(body, expected);
}

#[test]
fn missing_claims_are_null_and_the_token_is_empty() {
    let none = Claims { uid: None, cid: None, sid: None };
    let v = parsed(&build_body(&sample(None), &none));
    assert!(v["user"]["id"].is_null());
    assert!(v["user"]["clientId"].is_null());
    assert!(v["user"]["sessionId"].is_null());
    assert_eq!(v["client"]["token"], "");
}

#[test]
fn fractions_of_a_second_survive() {
    let mut ev = sample(None);
    ev.end_asset_pos_ns = 45_500_000_000;
    let v = parsed(&build_body(&ev, &claims()));
    assert_eq!(v["payload"]["endAssetPosition"].as_f64(), Some(45.5));
}

#[test]
fn every_body_has_its_own_uuid() {
    let a = parsed(&build_body(&sample(None), &claims()));
    let b = parsed(&build_body(&sample(None), &claims()));
    assert_ne!(a["uuid"], b["uuid"]);
    assert_eq!(a["uuid"].as_str().unwrap().len(), 36);
    assert_eq!(a["payload"], b["payload"]);
}

#[test]
fn headers_carry_the_time_of_sending() {
    let h = parsed(&build_headers("cid-x", "tok-y", -5));
    assert_eq!(h["requested-sent-timestamp"], "-5");
}

#[test]
fn source_names_read_back() {
    for kind in ["album", "playlist", "artist", "mix"] {
        let source = SourceType::from_sone(kind).unwrap();
        assert_eq!(source.as_tidal(), kind.to_uppercase());
        assert!(SourceType::from_sone(source.as_tidal()).is_some());
    }
    assert!(SourceType::from_sone("").is_none());
    assert!(SourceType::from_sone("albums").is_none());
}

#[test]
fn a_form_counts_entries_from_one() {
    let events = vec![
        ("body-a".to_string(), "head-a".to_string()),
        ("body-b".to_string(), "head-b".to_string()),
    ];
    let ids = vec!["id-a".to_string(), "id-b".to_string()];
    let form = sqs_form_with_ids(&events, &ids);
    assert_eq!(form.len(), 16);
    assert_eq!(form[0], ("SendMessageBatchRequestEntry.1.Id".into(), "id-a".into()));
    assert_eq!(form[1], ("SendMessageBatchRequestEntry.1.MessageBody".into(), "body-a".into()));
    assert_eq!(
        form[14],
        (
            "SendMessageBatchRequestEntry.2.MessageAttribute.2.Value.StringValue".into(),
            "head-b".into()
        )
    );
    let fresh = sqs_form(&events);
    assert_eq!(fresh[1], form[1]);
    assert_ne!(fresh[0].1, fresh[8].1);
}

#[test]
fn a_batch_carries_the_headers_of_the_account() {
    let form = batch_form(&vec!["body".to_string()], "tok", "cid", 77);
    assert_eq!(form[1].1, "body");
    assert_eq!(form[6].1, build_headers("cid", "tok", 77));
    assert_eq!(bearer("tok"), "Bearer tok");
    assert_eq!(EC_URL, "https://ec.tidal.com/api/event-batch");
    assert_eq!(MAX_BATCH, 10);
}

#[test]
fn replies_without_an_answer_are_transient() {
    assert_eq!(reply_outcome(&Reply::Failed), SendOutcome::Retryable);
    assert_eq!(reply_outcome(&Reply::TimedOut), SendOutcome::Retryable);
    let forbidden = Reply::Answered { status: 403, body: String::new() };
    assert_eq!(reply_outcome(&forbidden), SendOutcome::AuthFailed);
    assert_eq!(classify(302, ""), SendOutcome::SenderFault);
    assert_eq!(classify(599, ""), SendOutcome::Retryable);
    assert_eq!(classify(204, ""), SendOutcome::Accepted);
}
