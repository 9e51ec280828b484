//! `playback_session` event construction.

use crate::encoding;
use crate::json;
use crate::json::Leaf;
use crate::random;
use crate::text;
use serde_json::Value;
use vstd::prelude::*;
use vstd::string::*;

verus! {

/// Where event batches are posted.
pub const EC_URL: &'static str = "https://ec.tidal.com/api/event-batch";

/// The name under which the client reports.
pub const APP_NAME: &'static str = "SONE";

/// The operating system that the client reports.
pub const OS_NAME: &'static str = "linux";

/// The version that the client reports.
pub const APP_VERSION: &'static str = "0.1.0";

/// Max events per SQS `SendMessageBatch`.
pub const MAX_BATCH: usize = 10;

// ---------------------------------------------------------------------------
// Sources
// ---------------------------------------------------------------------------

/// Container the play was started from, the primary Recently-Played attribution.
#[derive(Clone, Copy, Debug, PartialEq, Eq, Structural)]
pub enum SourceType {
    Album,
    Playlist,
    Artist,
    Mix,
}

impl SourceType {
    /// The container that the player's own name `s` stands for, in any letter case.
    pub open spec fn of_sone(s: Seq<char>) -> Option<SourceType> {
        let name = text::ascii_lower(s);
        if name == "album"@ {
            Some(SourceType::Album)
        } else if name == "playlist"@ {
            Some(SourceType::Playlist)
        } else if name == "artist"@ {
            Some(SourceType::Artist)
        } else if name == "mix"@ {
            Some(SourceType::Mix)
        } else {
            None
        }
    }

    /// TIDAL's name of the container.
    pub open spec fn tidal_name(self) -> Seq<char> {
        match self {
            SourceType::Album => "ALBUM"@,
            SourceType::Playlist => "PLAYLIST"@,
            SourceType::Artist => "ARTIST"@,
            SourceType::Mix => "MIX"@,
        }
    }

    /// Map the frontend's source strings to the TIDAL enum. Unknown gives `None`.
    pub fn from_sone(s: &str) -> (source: Option<Self>)
        ensures
            source == Self::of_sone(s@),
    {
        if text::lowers_to(s, "album") {
            Some(SourceType::Album)
        } else if text::lowers_to(s, "playlist") {
            Some(SourceType::Playlist)
        } else if text::lowers_to(s, "artist") {
            Some(SourceType::Artist)
        } else if text::lowers_to(s, "mix") {
            Some(SourceType::Mix)
        } else {
            None
        }
    }

    /// TIDAL's name of the container.
    pub fn as_tidal(self) -> (name: &'static str)
        ensures
            name@ == self.tidal_name(),
    {
        match self {
            SourceType::Album => "ALBUM",
            SourceType::Playlist => "PLAYLIST",
            SourceType::Artist => "ARTIST",
            SourceType::Mix => "MIX",
        }
    }
}

/// TIDAL's name of a container reads back as that container.
pub proof fn law_source_names_read_back(source: SourceType)
    ensures
        SourceType::of_sone(source.tidal_name()) == Some(source),
{
    reveal_strlit("ALBUM");
    reveal_strlit("PLAYLIST");
    reveal_strlit("ARTIST");
    reveal_strlit("MIX");
    reveal_strlit("album");
    reveal_strlit("playlist");
    reveal_strlit("artist");
    reveal_strlit("mix");
    assert(text::ascii_lower("ALBUM"@) =~= "album"@);
    assert(text::ascii_lower("PLAYLIST"@) =~= "playlist"@);
    assert(text::ascii_lower("ARTIST"@) =~= "artist"@);
    assert(text::ascii_lower("MIX"@) =~= "mix"@);
}

// ---------------------------------------------------------------------------
// Claims
// ---------------------------------------------------------------------------

/// JWT claims needed to attribute an event to the account.
#[derive(Debug)]
pub struct Claims {
    pub uid: Option<u64>,
    pub cid: Option<u64>,
    pub sid: Option<String>,
}

/// The model of `Claims`.
pub ghost struct ClaimsView {
    pub uid: Option<u64>,
    pub cid: Option<u64>,
    pub sid: Option<Seq<char>>,
}

impl View for Claims {
    type V = ClaimsView;

    open spec fn view(&self) -> ClaimsView {
        ClaimsView { uid: self.uid, cid: self.cid, sid: text::text_of(self.sid) }
    }
}

impl ClaimsView {
    /// Claims of which none is known.
    pub open spec fn none() -> ClaimsView {
        ClaimsView { uid: None, cid: None, sid: None }
    }
}

impl Default for Claims {
    fn default() -> (claims: Self)
        ensures
            claims@ == ClaimsView::none(),
    {
        Claims { uid: None, cid: None, sid: None }
    }
}

/// The number that a claim holds: an unsigned integer, or a string that spells one.
pub open spec fn claim_number(claim: Option<json::LeafView>) -> Option<u64> {
    match claim {
        Some(json::LeafView::Number { unsigned, .. }) => unsigned,
        Some(json::LeafView::Text(s)) => text::spelled_u64(s),
        _ => None,
    }
}

/// The string that a claim holds.
pub open spec fn claim_text(claim: Option<json::LeafView>) -> Option<Seq<char>> {
    match claim {
        Some(json::LeafView::Text(s)) => Some(s),
        _ => None,
    }
}

/// The claims that the members of a token's payload make.
pub open spec fn claims_in(members: Seq<(Seq<char>, json::LeafView)>) -> ClaimsView {
    ClaimsView {
        uid: claim_number(json::member(members, "uid"@)),
        cid: claim_number(json::member(members, "cid"@)),
        sid: claim_text(json::member(members, "sid"@)),
    }
}

/// The dot between the segments of a token.
pub open spec fn is_dot() -> spec_fn(char) -> bool {
    |c: char| c == '.'
}

/// What stands between the first dot of `s` and the next one, or its end.
pub open spec fn second_segment(s: Seq<char>) -> Option<Seq<char>> {
    let first = text::span(s, is_dot());
    if first == s.len() {
        None
    } else {
        let rest = s.skip(first as int + 1);
        Some(rest.take(text::span(rest, is_dot()) as int))
    }
}

/// The claims of a token: those of the JSON object that its second segment
/// encodes, and none where it encodes no JSON.
pub open spec fn token_claims(token: Seq<char>) -> ClaimsView {
    match second_segment(token) {
        None => ClaimsView::none(),
        Some(segment) => match encoding::base64url_bytes(segment) {
            None => ClaimsView::none(),
            Some(bytes) => match json::object_members(bytes) {
                None => ClaimsView::none(),
                Some(members) => claims_in(members),
            },
        },
    }
}

/// The segment of `token` between its first dot and the next one, or its end.
fn payload_segment(token: &str) -> (segment: Option<&str>)
    ensures
        match segment {
            Some(s) => second_segment(token@) == Some(s@),
            None => second_segment(token@) is None,
        },
{
    let chars = text::chars_of(token);
    let mut first: usize = 0;
    while first < chars.len() && chars[first] != '.'
        invariant
            first <= chars@.len(),
            forall|i: int| 0 <= i < first ==> chars@[i] != '.',
        decreases chars@.len() - first,
    {
        first += 1;
    }
    proof {
        text::lemma_span(token@, is_dot(), first as int);
    }
    if first == chars.len() {
        return None;
    }
    let start: usize = first + 1;
    let mut end: usize = start;
    while end < chars.len() && chars[end] != '.'
        invariant
            start <= end <= chars@.len(),
            forall|i: int| start <= i < end ==> chars@[i] != '.',
        decreases chars@.len() - end,
    {
        end += 1;
    }
    proof {
        let rest = token@.skip(start as int);
        text::lemma_span(rest, is_dot(), end - start);
        assert(rest.take(end - start) == token@.subrange(start as int, end as int));
    }
    Some(token.substring_char(start, end))
}

/// The number that the member `key` holds, as a number or as a string.
fn member_number(members: &Vec<(String, Leaf)>, key: &str) -> (number: Option<u64>)
    ensures
        number == claim_number(json::member(json::leaves_of(members@), key@)),
{
    match json::find_member(members, key) {
        Some(Leaf::Number { unsigned, .. }) => *unsigned,
        Some(Leaf::Text(s)) => text::parse_u64(s.as_str()),
        _ => None,
    }
}

/// The claims that the members of a token's payload make.
pub fn claims_from_members(members: &Vec<(String, Leaf)>) -> (claims: Claims)
    ensures
        claims@ == claims_in(json::leaves_of(members@)),
{
    Claims {
        uid: member_number(members, "uid"),
        cid: member_number(members, "cid"),
        sid: match json::find_member(members, "sid") {
            Some(Leaf::Text(s)) => Some(s.clone()),
            _ => None,
        },
    }
}

/// Decode the middle JWT segment (base64url). No signature verification.
pub fn parse_claims(access_token: &str) -> (claims: Claims)
    ensures
        claims@ == token_claims(access_token@),
{
    let segment = match payload_segment(access_token) {
        Some(segment) => segment,
        None => {
            return Claims::default();
        },
    };
    let bytes = match encoding::decode_url_text(segment) {
        Some(bytes) => bytes,
        None => {
            return Claims::default();
        },
    };
    match json::read_object(bytes.as_slice()) {
        Some(members) => claims_from_members(&members),
        None => Claims::default(),
    }
}

/// A token whose middle segment encodes `payload`, with or without padding, makes
/// the claims that `payload` makes, whatever stands in the other segments.
pub proof fn law_token_claims_are_payload_claims(
    head: Seq<char>,
    payload: Seq<u8>,
    tail: Seq<char>,
)
    requires
        forall|i: int| 0 <= i < head.len() ==> #[trigger] head[i] != '.',
    ensures
        ({
            let claims = match json::object_members(payload) {
                Some(members) => claims_in(members),
                None => ClaimsView::none(),
            };
            let plain = head + seq!['.'] + encoding::base64url(payload);
            let wide = head + seq!['.'] + encoding::base64url_padded(payload);
            &&& token_claims(plain + seq!['.'] + tail) == claims
            &&& token_claims(wide + seq!['.'] + tail) == claims
        }),
{
    encoding::law_base64url_reads_back(payload);
    encoding::lemma_symbols(payload);
    let plain = encoding::base64url(payload);
    let wide = encoding::base64url_padded(payload);
    lemma_second_segment(head, plain, tail);
    lemma_second_segment(head, wide, tail);
}

/// The second of three segments, where neither it nor the first holds a dot.
proof fn lemma_second_segment(head: Seq<char>, middle: Seq<char>, tail: Seq<char>)
    requires
        forall|i: int| 0 <= i < head.len() ==> #[trigger] head[i] != '.',
        forall|i: int| 0 <= i < middle.len() ==> #[trigger] middle[i] != '.',
    ensures
        second_segment(head + seq!['.'] + middle + seq!['.'] + tail) == Some(middle),
{
    let s = head + seq!['.'] + middle + seq!['.'] + tail;
    text::lemma_span(s, is_dot(), head.len() as int);
    let rest = s.skip(head.len() as int + 1);
    assert forall|i: int| 0 <= i < middle.len() implies !is_dot()(#[trigger] rest[i]) by {
        assert(rest[i] == middle[i]);
    }
    text::lemma_span(rest, is_dot(), middle.len() as int);
    assert(rest.take(middle.len() as int) =~= middle);
}

// ---------------------------------------------------------------------------
// The body of an event
// ---------------------------------------------------------------------------

/// The facts needed to build one `playback_session` event.
#[derive(Debug)]
pub struct SessionEvent {
    pub session_id: String,
    pub requested_product_id: u64,
    pub actual_product_id: String,
    pub quality: String,
    pub audio_mode: String,
    pub presentation: String,
    pub source: Option<(SourceType, String)>,
    pub start_ts_ms: i64,
    pub end_ts_ms: i64,
    /// Where in the track the play ended, in nanoseconds from its start.
    pub end_asset_pos_ns: u64,
}

/// TIDAL's name of the container that a play was started from, and its id: empty
/// strings, never null, where there is none, since null fails server validation.
pub open spec fn source_names(source: Option<(SourceType, String)>) -> (Seq<char>, Seq<char>) {
    match source {
        Some((kind, id)) => (kind.tidal_name(), id@),
        None => (seq![], seq![]),
    }
}

/// The JSON text of an optional number.
pub open spec fn number_or_null(n: Option<u64>) -> Seq<char> {
    match n {
        Some(n) => text::decimal(n as nat),
        None => "null"@,
    }
}

/// The JSON text of an optional string.
pub open spec fn text_or_null(s: Option<Seq<char>>) -> Seq<char> {
    match s {
        Some(s) => json::string_text(s),
        None => "null"@,
    }
}

/// One entry of the payload's `actions`.
pub open spec fn action_members(kind: Seq<char>, pos_ns: u64, ts: i64) -> Seq<
    (Seq<char>, Seq<char>),
> {
    seq![
        ("actionType"@, json::string_text(kind)),
        ("assetPosition"@, json::seconds_text(pos_ns as nat)),
        ("timestamp"@, text::signed_decimal(ts as int)),
    ]
}

/// The `actions` of the payload: the start and the stop of the play.
pub open spec fn actions_text(ev: SessionEvent) -> Seq<char> {
    json::array_text(
        seq![
            json::object_text(action_members("PLAYBACK_START"@, 0, ev.start_ts_ms)),
            json::object_text(
                action_members("PLAYBACK_STOP"@, ev.end_asset_pos_ns, ev.end_ts_ms),
            ),
        ],
    )
}

/// The `payload` of the body.
pub open spec fn payload_members(ev: SessionEvent) -> Seq<(Seq<char>, Seq<char>)> {
    let source = source_names(ev.source);
    seq![
        ("actions"@, actions_text(ev)),
        ("actualAssetPresentation"@, json::string_text(ev.presentation@)),
        ("actualAudioMode"@, json::string_text(ev.audio_mode@)),
        ("actualProductId"@, json::string_text(ev.actual_product_id@)),
        ("actualQuality"@, json::string_text(ev.quality@)),
        ("endAssetPosition"@, json::seconds_text(ev.end_asset_pos_ns as nat)),
        ("endTimestamp"@, text::signed_decimal(ev.end_ts_ms as int)),
        ("isPostPaywall"@, "true"@),
        ("playbackSessionId"@, json::string_text(ev.session_id@)),
        ("productType"@, json::string_text("TRACK"@)),
        (
            "requestedProductId"@,
            json::string_text(text::decimal(ev.requested_product_id as nat)),
        ),
        ("sourceId"@, json::string_text(source.1)),
        ("sourceType"@, json::string_text(source.0)),
        ("startAssetPosition"@, json::seconds_text(0)),
        ("startTimestamp"@, text::signed_decimal(ev.start_ts_ms as int)),
    ]
}

/// The `user` of the body: the account that the play counts for.
pub open spec fn user_members(claims: ClaimsView) -> Seq<(Seq<char>, Seq<char>)> {
    seq![
        ("clientId"@, number_or_null(claims.cid)),
        ("id"@, number_or_null(claims.uid)),
        ("sessionId"@, text_or_null(claims.sid)),
    ]
}

/// The `client` of the body. Its token is the `cid` claim as a string, empty
/// where there is none.
pub open spec fn client_members(claims: ClaimsView) -> Seq<(Seq<char>, Seq<char>)> {
    seq![
        ("deviceType"@, json::string_text("androidAuto"@)),
        ("platform"@, json::string_text("android"@)),
        (
            "token"@,
            json::string_text(
                match claims.cid {
                    Some(cid) => text::decimal(cid as nat),
                    None => seq![],
                },
            ),
        ),
        ("version"@, json::string_text(APP_VERSION@)),
    ]
}

/// The members of the body of the event with this id.
pub open spec fn body_members(ev: SessionEvent, claims: ClaimsView, uuid: Seq<char>) -> Seq<
    (Seq<char>, Seq<char>),
> {
    seq![
        ("client"@, json::object_text(client_members(claims))),
        ("group"@, json::string_text("play_log"@)),
        ("name"@, json::string_text("playback_session"@)),
        ("payload"@, json::object_text(payload_members(ev))),
        ("ts"@, text::signed_decimal(ev.end_ts_ms as int)),
        ("user"@, json::object_text(user_members(claims))),
        ("uuid"@, json::string_text(uuid)),
        ("version"@, text::decimal(2)),
    ]
}

/// The JSON text of the body of the event with this id.
pub open spec fn body_text(ev: SessionEvent, claims: ClaimsView, uuid: Seq<char>) -> Seq<char> {
    json::object_text(body_members(ev, claims, uuid))
}

/// The members of the `Headers` attribute of an event.
pub open spec fn header_members(client_id: Seq<char>, token: Seq<char>, now_ms: i64) -> Seq<
    (Seq<char>, Seq<char>),
> {
    seq![
        ("app-name"@, json::string_text(APP_NAME@)),
        ("app-version"@, json::string_text(APP_VERSION@)),
        ("authorization"@, json::string_text(token)),
        ("client-id"@, json::string_text(client_id)),
        ("consent-category"@, json::string_text("NECESSARY"@)),
        ("os-name"@, json::string_text(OS_NAME@)),
        (
            "requested-sent-timestamp"@,
            json::string_text(text::signed_decimal(now_ms as int)),
        ),
    ]
}

/// `a` comes before `b` where `d` is the first position at which they differ.
proof fn lemma_key_before(a: Seq<char>, b: Seq<char>, d: int)
    requires
        0 <= d <= a.len(),
        d < b.len(),
        forall|i: int| 0 <= i < d ==> a[i] == b[i],
        d < a.len() ==> a[d] < b[d],
    ensures
        json::key_before(a, b),
{
    assert(a.take(d) =~= b.take(d));
    assert(json::differ_at(a, b, d));
}

/// The keys of an action ascend.
proof fn lemma_action_keys(kind: Seq<char>, pos_ns: u64, ts: i64)
    ensures
        json::ascending(action_members(kind, pos_ns, ts)),
{
    reveal_strlit("actionType");
    reveal_strlit("assetPosition");
    reveal_strlit("timestamp");
    let members = action_members(kind, pos_ns, ts);
    lemma_key_before("actionType"@, "assetPosition"@, 1);
    lemma_key_before("assetPosition"@, "timestamp"@, 0);
    assert forall|i: int| 0 < i < members.len() implies json::key_before(
        members[i - 1].0,
        #[trigger] members[i].0,
    ) by {
        assert(i == 1 || i == 2);
    }
}

/// The keys of the payload ascend.
proof fn lemma_payload_keys(ev: SessionEvent)
    ensures
        json::ascending(payload_members(ev)),
{
    reveal_strlit("actions");
    reveal_strlit("actualAssetPresentation");
    reveal_strlit("actualAudioMode");
    reveal_strlit("actualProductId");
    reveal_strlit("actualQuality");
    reveal_strlit("endAssetPosition");
    reveal_strlit("endTimestamp");
    reveal_strlit("isPostPaywall");
    reveal_strlit("playbackSessionId");
    reveal_strlit("productType");
    reveal_strlit("requestedProductId");
    reveal_strlit("sourceId");
    reveal_strlit("sourceType");
    reveal_strlit("startAssetPosition");
    reveal_strlit("startTimestamp");
    let members = payload_members(ev);
    lemma_key_before("actions"@, "actualAssetPresentation"@, 3);
    lemma_key_before("actualAssetPresentation"@, "actualAudioMode"@, 7);
    lemma_key_before("actualAudioMode"@, "actualProductId"@, 6);
    lemma_key_before("actualProductId"@, "actualQuality"@, 6);
    lemma_key_before("actualQuality"@, "endAssetPosition"@, 0);
    lemma_key_before("endAssetPosition"@, "endTimestamp"@, 3);
    lemma_key_before("endTimestamp"@, "isPostPaywall"@, 0);
    lemma_key_before("isPostPaywall"@, "playbackSessionId"@, 0);
    lemma_key_before("playbackSessionId"@, "productType"@, 1);
    lemma_key_before("productType"@, "requestedProductId"@, 0);
    lemma_key_before("requestedProductId"@, "sourceId"@, 0);
    lemma_key_before("sourceId"@, "sourceType"@, 6);
    lemma_key_before("sourceType"@, "startAssetPosition"@, 1);
    lemma_key_before("startAssetPosition"@, "startTimestamp"@, 5);
    assert forall|i: int| 0 < i < members.len() implies json::key_before(
        members[i - 1].0,
        #[trigger] members[i].0,
    ) by {
        assert(i == 1 || i == 2 || i == 3 || i == 4 || i == 5 || i == 6 || i == 7 || i == 8 || i == 9 || i == 10 || i == 11 || i == 12 || i == 13 || i == 14);
    }
}

/// The keys of the user ascend.
proof fn lemma_user_keys(claims: ClaimsView)
    ensures
        json::ascending(user_members(claims)),
{
    reveal_strlit("clientId");
    reveal_strlit("id");
    reveal_strlit("sessionId");
    let members = user_members(claims);
    lemma_key_before("clientId"@, "id"@, 0);
    lemma_key_before("id"@, "sessionId"@, 0);
    assert forall|i: int| 0 < i < members.len() implies json::key_before(
        members[i - 1].0,
        #[trigger] members[i].0,
    ) by {
        assert(i == 1 || i == 2);
    }
}

/// The keys of the client ascend.
proof fn lemma_client_keys(claims: ClaimsView)
    ensures
        json::ascending(client_members(claims)),
{
    reveal_strlit("deviceType");
    reveal_strlit("platform");
    reveal_strlit("token");
    reveal_strlit("version");
    let members = client_members(claims);
    lemma_key_before("deviceType"@, "platform"@, 0);
    lemma_key_before("platform"@, "token"@, 0);
    lemma_key_before("token"@, "version"@, 0);
    assert forall|i: int| 0 < i < members.len() implies json::key_before(
        members[i - 1].0,
        #[trigger] members[i].0,
    ) by {
        assert(i == 1 || i == 2 || i == 3);
    }
}

/// The keys of the body ascend.
proof fn lemma_body_keys(ev: SessionEvent, claims: ClaimsView, uuid: Seq<char>)
    ensures
        json::ascending(body_members(ev, claims, uuid)),
{
    reveal_strlit("client");
    reveal_strlit("group");
    reveal_strlit("name");
    reveal_strlit("payload");
    reveal_strlit("ts");
    reveal_strlit("user");
    reveal_strlit("uuid");
    reveal_strlit("version");
    let members = body_members(ev, claims, uuid);
    lemma_key_before("client"@, "group"@, 0);
    lemma_key_before("group"@, "name"@, 0);
    lemma_key_before("name"@, "payload"@, 0);
    lemma_key_before("payload"@, "ts"@, 0);
    lemma_key_before("ts"@, "user"@, 0);
    lemma_key_before("user"@, "uuid"@, 1);
    lemma_key_before("uuid"@, "version"@, 0);
    assert forall|i: int| 0 < i < members.len() implies json::key_before(
        members[i - 1].0,
        #[trigger] members[i].0,
    ) by {
        assert(i == 1 || i == 2 || i == 3 || i == 4 || i == 5 || i == 6 || i == 7);
    }
}

/// The keys of the headers ascend.
proof fn lemma_header_keys(client_id: Seq<char>, token: Seq<char>, now_ms: i64)
    ensures
        json::ascending(header_members(client_id, token, now_ms)),
{
    reveal_strlit("app-name");
    reveal_strlit("app-version");
    reveal_strlit("authorization");
    reveal_strlit("client-id");
    reveal_strlit("consent-category");
    reveal_strlit("os-name");
    reveal_strlit("requested-sent-timestamp");
    let members = header_members(client_id, token, now_ms);
    lemma_key_before("app-name"@, "app-version"@, 4);
    lemma_key_before("app-version"@, "authorization"@, 1);
    lemma_key_before("authorization"@, "client-id"@, 0);
    lemma_key_before("client-id"@, "consent-category"@, 1);
    lemma_key_before("consent-category"@, "os-name"@, 0);
    lemma_key_before("os-name"@, "requested-sent-timestamp"@, 0);
    assert forall|i: int| 0 < i < members.len() implies json::key_before(
        members[i - 1].0,
        #[trigger] members[i].0,
    ) by {
        assert(i == 1 || i == 2 || i == 3 || i == 4 || i == 5 || i == 6);
    }
}


/// The JSON value of an optional number.
fn optional_number(n: Option<u64>) -> (v: Value)
    ensures
        json::value_text(v) == number_or_null(n),
{
    match n {
        Some(n) => json::unsigned_value(n),
        None => json::null_value(),
    }
}

/// The JSON value of an optional string.
fn optional_string(s: &Option<String>) -> (v: Value)
    ensures
        json::value_text(v) == text_or_null(text::text_of(*s)),
{
    match s {
        Some(s) => json::string_value(s.as_str()),
        None => json::null_value(),
    }
}

/// One entry of the payload's `actions`.
fn action_value(kind: &str, pos_ns: u64, ts: i64) -> (v: Value)
    ensures
        json::value_text(v) == json::object_text(action_members(kind@, pos_ns, ts)),
{
    let mut members: Vec<(String, Value)> = Vec::new();
    members.push(("actionType".to_string(), json::string_value(kind)));
    members.push(("assetPosition".to_string(), json::seconds_value(pos_ns)));
    members.push(("timestamp".to_string(), json::signed_value(ts)));
    proof {
        lemma_action_keys(kind@, pos_ns, ts);
        assert(json::members_of(members@) =~= action_members(kind@, pos_ns, ts));
    }
    json::object_value(members)
}

/// The `actions` of the payload.
fn actions_value(ev: &SessionEvent) -> (v: Value)
    ensures
        json::value_text(v) == actions_text(*ev),
{
    let start = action_value("PLAYBACK_START", 0, ev.start_ts_ms);
    let stop = action_value("PLAYBACK_STOP", ev.end_asset_pos_ns, ev.end_ts_ms);
    let mut actions: Vec<Value> = Vec::new();
    actions.push(start);
    actions.push(stop);
    let ghost texts = actions@.map_values(|item: Value| json::value_text(item));
    assert(texts =~= seq![json::value_text(start), json::value_text(stop)]);
    json::array_value(actions)
}

/// The `payload` of the body.
fn payload_value(ev: &SessionEvent) -> (v: Value)
    ensures
        json::value_text(v) == json::object_text(payload_members(*ev)),
{
    let source_type = match &ev.source {
        Some((kind, id)) => kind.as_tidal(),
        None => "",
    };
    let source_id = match &ev.source {
        Some((kind, id)) => id.as_str(),
        None => "",
    };
    proof {
        reveal_strlit("");
        assert(""@ =~= Seq::<char>::empty());
    }
    let requested = text::decimal_text(ev.requested_product_id);
    let mut members: Vec<(String, Value)> = Vec::new();
    members.push(("actions".to_string(), actions_value(ev)));
    members.push(
        ("actualAssetPresentation".to_string(), json::string_value(ev.presentation.as_str())),
    );
    members.push(("actualAudioMode".to_string(), json::string_value(ev.audio_mode.as_str())));
    members.push(
        ("actualProductId".to_string(), json::string_value(ev.actual_product_id.as_str())),
    );
    members.push(("actualQuality".to_string(), json::string_value(ev.quality.as_str())));
    members.push(("endAssetPosition".to_string(), json::seconds_value(ev.end_asset_pos_ns)));
    members.push(("endTimestamp".to_string(), json::signed_value(ev.end_ts_ms)));
    members.push(("isPostPaywall".to_string(), json::bool_value(true)));
    members.push(("playbackSessionId".to_string(), json::string_value(ev.session_id.as_str())));
    members.push(("productType".to_string(), json::string_value("TRACK")));
    members.push(("requestedProductId".to_string(), json::string_value(requested.as_str())));
    members.push(("sourceId".to_string(), json::string_value(source_id)));
    members.push(("sourceType".to_string(), json::string_value(source_type)));
    members.push(("startAssetPosition".to_string(), json::seconds_value(0)));
    members.push(("startTimestamp".to_string(), json::signed_value(ev.start_ts_ms)));
    proof {
        lemma_payload_keys(*ev);
        assert(json::members_of(members@) =~= payload_members(*ev));
    }
    json::object_value(members)
}

/// The `user` of the body.
fn user_value(claims: &Claims) -> (v: Value)
    ensures
        json::value_text(v) == json::object_text(user_members(claims@)),
{
    let mut members: Vec<(String, Value)> = Vec::new();
    members.push(("clientId".to_string(), optional_number(claims.cid)));
    members.push(("id".to_string(), optional_number(claims.uid)));
    members.push(("sessionId".to_string(), optional_string(&claims.sid)));
    proof {
        lemma_user_keys(claims@);
        assert(json::members_of(members@) =~= user_members(claims@));
    }
    json::object_value(members)
}

/// The `client` of the body.
fn client_value(claims: &Claims) -> (v: Value)
    ensures
        json::value_text(v) == json::object_text(client_members(claims@)),
{
    let token = match claims.cid {
        Some(cid) => text::decimal_text(cid),
        None => String::new(),
    };
    let mut members: Vec<(String, Value)> = Vec::new();
    members.push(("deviceType".to_string(), json::string_value("androidAuto")));
    members.push(("platform".to_string(), json::string_value("android")));
    members.push(("token".to_string(), json::string_value(token.as_str())));
    members.push(("version".to_string(), json::string_value(APP_VERSION)));
    proof {
        lemma_client_keys(claims@);
        assert(json::members_of(members@) =~= client_members(claims@));
    }
    json::object_value(members)
}

/// The MessageBody JSON (mobile shape) of the event with this id.
pub fn body_with_uuid(ev: &SessionEvent, claims: &Claims, uuid: &str) -> (body: String)
    ensures
        body@ == body_text(*ev, claims@, uuid@),
{
    let mut members: Vec<(String, Value)> = Vec::new();
    members.push(("client".to_string(), client_value(claims)));
    members.push(("group".to_string(), json::string_value("play_log")));
    members.push(("name".to_string(), json::string_value("playback_session")));
    members.push(("payload".to_string(), payload_value(ev)));
    members.push(("ts".to_string(), json::signed_value(ev.end_ts_ms)));
    members.push(("user".to_string(), user_value(claims)));
    members.push(("uuid".to_string(), json::string_value(uuid)));
    members.push(("version".to_string(), json::unsigned_value(2)));
    proof {
        lemma_body_keys(*ev, claims@, uuid@);
        assert(json::members_of(members@) =~= body_members(*ev, claims@, uuid@));
    }
    json::render(&json::object_value(members))
}

/// Build the MessageBody JSON (mobile shape) for one event, under a fresh id.
pub fn build_body(ev: &SessionEvent, claims: &Claims) -> (body: String)
    ensures
        exists|uuid: Seq<char>|
            random::is_uuid_v4(uuid) && body@ == #[trigger] body_text(*ev, claims@, uuid),
{
    let uuid = random::new_uuid();
    body_with_uuid(ev, claims, uuid.as_str())
}

/// The per-event `Headers` MessageAttribute (JSON string).
pub fn build_headers(oauth_client_id: &str, access_token: &str, now_ms: i64) -> (headers: String)
    ensures
        headers@ == json::object_text(header_members(oauth_client_id@, access_token@, now_ms)),
{
    let now = text::signed_decimal_text(now_ms);
    let mut members: Vec<(String, Value)> = Vec::new();
    members.push(("app-name".to_string(), json::string_value(APP_NAME)));
    members.push(("app-version".to_string(), json::string_value(APP_VERSION)));
    members.push(("authorization".to_string(), json::string_value(access_token)));
    members.push(("client-id".to_string(), json::string_value(oauth_client_id)));
    members.push(("consent-category".to_string(), json::string_value("NECESSARY")));
    members.push(("os-name".to_string(), json::string_value(OS_NAME)));
    members.push(("requested-sent-timestamp".to_string(), json::string_value(now.as_str())));
    proof {
        lemma_header_keys(oauth_client_id@, access_token@, now_ms);
        assert(json::members_of(members@) =~= header_members(
            oauth_client_id@,
            access_token@,
            now_ms,
        ));
    }
    json::render(&json::object_value(members))
}

/// A play without a container reports its type and id as empty strings, and no
/// play reports either as null.
pub proof fn law_source_is_never_null(ev: SessionEvent)
    ensures
        payload_members(ev)[11].0 == "sourceId"@,
        payload_members(ev)[12].0 == "sourceType"@,
        payload_members(ev)[11].1 != "null"@,
        payload_members(ev)[12].1 != "null"@,
        ev.source is None ==> payload_members(ev)[11].1 == seq!['"', '"'],
        ev.source is None ==> payload_members(ev)[12].1 == seq!['"', '"'],
{
    reveal_strlit("null");
    let source = source_names(ev.source);
    assert(json::string_text(source.1)[0] == '"');
    assert(json::string_text(source.0)[0] == '"');
    assert("null"@[0] == 'n');
    if ev.source is None {
        assert(json::string_text(source.0) =~= seq!['"', '"']);
        assert(json::string_text(source.1) =~= seq!['"', '"']);
    }
}

// ---------------------------------------------------------------------------
// The form of a batch
// ---------------------------------------------------------------------------

/// The views of a list of pairs of strings.
pub open spec fn pairs_of(pairs: Seq<(String, String)>) -> Seq<(Seq<char>, Seq<char>)> {
    pairs.map_values(|p: (String, String)| (p.0@, p.1@))
}

/// The name of a field of entry `n` of a batch.
pub open spec fn entry_key(n: nat, suffix: Seq<char>) -> Seq<char> {
    "SendMessageBatchRequestEntry."@ + text::decimal(n) + "."@ + suffix
}

/// The fields of entry `n` of a batch: its id, the body, and the two attributes.
pub open spec fn entry_fields(
    n: nat,
    id: Seq<char>,
    body: Seq<char>,
    headers: Seq<char>,
) -> Seq<(Seq<char>, Seq<char>)> {
    seq![
        (entry_key(n, "Id"@), id),
        (entry_key(n, "MessageBody"@), body),
        (entry_key(n, "MessageAttribute.1.Name"@), "Name"@),
        (entry_key(n, "MessageAttribute.1.Value.StringValue"@), "playback_session"@),
        (entry_key(n, "MessageAttribute.1.Value.DataType"@), "String"@),
        (entry_key(n, "MessageAttribute.2.Name"@), "Headers"@),
        (entry_key(n, "MessageAttribute.2.Value.StringValue"@), headers),
        (entry_key(n, "MessageAttribute.2.Value.DataType"@), "String"@),
    ]
}

/// The fields of a batch of events, given as (body, headers), under these ids;
/// entries count from one.
pub open spec fn form_fields(
    events: Seq<(Seq<char>, Seq<char>)>,
    ids: Seq<Seq<char>>,
) -> Seq<(Seq<char>, Seq<char>)>
    decreases events.len(),
{
    if events.len() == 0 {
        seq![]
    } else {
        form_fields(events.drop_last(), ids.drop_last()) + entry_fields(
            events.len(),
            ids.last(),
            events.last().0,
            events.last().1,
        )
    }
}

/// The name of a field of entry `n` of a batch.
fn entry_field(n: u64, suffix: &str) -> (key: String)
    ensures
        key@ == entry_key(n as nat, suffix@),
{
    let mut key = "SendMessageBatchRequestEntry.".to_string();
    key.append(text::decimal_text(n).as_str());
    key.append(".");
    key.append(suffix);
    key
}

/// Append the fields of entry `n` to a form.
fn push_entry(
    form: &mut Vec<(String, String)>,
    n: u64,
    id: &String,
    body: &String,
    headers: &String,
)
    ensures
        pairs_of(final(form)@) == pairs_of(old(form)@) + entry_fields(
            n as nat,
            id@,
            body@,
            headers@,
        ),
{
    form.push((entry_field(n, "Id"), id.clone()));
    form.push((entry_field(n, "MessageBody"), body.clone()));
    form.push((entry_field(n, "MessageAttribute.1.Name"), "Name".to_string()));
    form.push(
        (
            entry_field(n, "MessageAttribute.1.Value.StringValue"),
            "playback_session".to_string(),
        ),
    );
    form.push((entry_field(n, "MessageAttribute.1.Value.DataType"), "String".to_string()));
    form.push((entry_field(n, "MessageAttribute.2.Name"), "Headers".to_string()));
    form.push((entry_field(n, "MessageAttribute.2.Value.StringValue"), headers.clone()));
    form.push((entry_field(n, "MessageAttribute.2.Value.DataType"), "String".to_string()));
    assert(pairs_of(form@) =~= pairs_of(old(form)@) + entry_fields(
        n as nat,
        id@,
        body@,
        headers@,
    ));
}

/// The form of a batch of (body, headers) under the given ids, one for each event.
pub fn sqs_form_with_ids(events: &[(String, String)], ids: &[String]) -> (form: Vec<
    (String, String),
>)
    requires
        events@.len() == ids@.len(),
    ensures
        pairs_of(form@) == form_fields(pairs_of(events@), text::texts(ids@)),
{
    let ghost all = pairs_of(events@);
    let ghost names = text::texts(ids@);
    let mut form: Vec<(String, String)> = Vec::new();
    let mut i: usize = 0;
    assert(pairs_of(form@) =~= form_fields(all.take(0), names.take(0)));
    while i < events.len()
        invariant
            i <= events@.len(),
            events@.len() == ids@.len(),
            all == pairs_of(events@),
            names == text::texts(ids@),
            pairs_of(form@) == form_fields(all.take(i as int), names.take(i as int)),
        decreases events@.len() - i,
    {
        let event = &events[i];
        push_entry(&mut form, i as u64 + 1, &ids[i], &event.0, &event.1);
        proof {
            let done = all.take(i + 1);
            assert(done.drop_last() =~= all.take(i as int));
            assert(names.take(i + 1).drop_last() =~= names.take(i as int));
            assert(done.last() == (event.0@, event.1@));
        }
        i += 1;
    }
    assert(all.take(i as int) =~= all);
    assert(names.take(i as int) =~= names);
    form
}

/// Encode events as an SQS `SendMessageBatch` form body, each under a fresh id.
/// `events` is a slice of (body_json, headers_json); at most `MAX_BATCH` per call.
pub fn sqs_form(events: &[(String, String)]) -> (form: Vec<(String, String)>)
    ensures
        exists|ids: Seq<Seq<char>>|
            {
                &&& ids.len() == events@.len()
                &&& forall|i: int| 0 <= i < ids.len() ==> random::is_uuid_v4(#[trigger] ids[i])
                &&& pairs_of(form@) == #[trigger] form_fields(pairs_of(events@), ids)
            },
{
    let mut ids: Vec<String> = Vec::new();
    while ids.len() < events.len()
        invariant
            ids@.len() <= events@.len(),
            forall|i: int| 0 <= i < ids@.len() ==> random::is_uuid_v4(#[trigger] ids@[i]@),
        decreases events@.len() - ids@.len(),
    {
        ids.push(random::new_uuid());
    }
    let ghost names = text::texts(ids@);
    assert forall|i: int| 0 <= i < names.len() implies random::is_uuid_v4(#[trigger] names[i]) by {
        assert(names[i] == ids@[i]@);
    }
    sqs_form_with_ids(events, ids.as_slice())
}

/// Entry `i` of a form has eight fields; the second carries the body of event `i`
/// and the seventh its headers, unchanged.
pub proof fn law_form_carries_events(
    events: Seq<(Seq<char>, Seq<char>)>,
    ids: Seq<Seq<char>>,
    i: int,
)
    requires
        ids.len() == events.len(),
        0 <= i < events.len(),
    ensures
        form_fields(events, ids).len() == 8 * events.len(),
        form_fields(events, ids).subrange(8 * i, 8 * i + 8) == entry_fields(
            (i + 1) as nat,
            ids[i],
            events[i].0,
            events[i].1,
        ),
    decreases events.len(),
{
    lemma_form_len(events, ids);
    let form = form_fields(events, ids);
    let before = form_fields(events.drop_last(), ids.drop_last());
    lemma_form_len(events.drop_last(), ids.drop_last());
    if i < events.len() - 1 {
        law_form_carries_events(events.drop_last(), ids.drop_last(), i);
        assert(form.subrange(8 * i, 8 * i + 8) =~= before.subrange(8 * i, 8 * i + 8));
    } else {
        assert(form.subrange(8 * i, 8 * i + 8) =~= entry_fields(
            events.len(),
            ids.last(),
            events.last().0,
            events.last().1,
        ));
    }
}

/// A form has eight fields for each event.
proof fn lemma_form_len(events: Seq<(Seq<char>, Seq<char>)>, ids: Seq<Seq<char>>)
    requires
        ids.len() == events.len(),
    ensures
        form_fields(events, ids).len() == 8 * events.len(),
    decreases events.len(),
{
    if events.len() > 0 {
        lemma_form_len(events.drop_last(), ids.drop_last());
    }
}

/// The (body, headers) pairs of a batch in which every event has the same headers.
pub open spec fn with_headers(bodies: Seq<Seq<char>>, headers: Seq<char>) -> Seq<
    (Seq<char>, Seq<char>),
> {
    bodies.map_values(|b: Seq<char>| (b, headers))
}

/// The form that posts these bodies for the account: each with the headers that
/// carry the token, and under a fresh id.
pub fn batch_form(bodies: &Vec<String>, access_token: &str, client_id: &str, now_ms: i64) -> (form:
    Vec<(String, String)>)
    ensures
        exists|ids: Seq<Seq<char>>|
            {
                &&& ids.len() == bodies@.len()
                &&& forall|i: int| 0 <= i < ids.len() ==> random::is_uuid_v4(#[trigger] ids[i])
                &&& pairs_of(form@) == #[trigger] form_fields(
                    with_headers(
                        text::texts(bodies@),
                        json::object_text(header_members(client_id@, access_token@, now_ms)),
                    ),
                    ids,
                )
            },
{
    let ghost headers = json::object_text(header_members(client_id@, access_token@, now_ms));
    let ghost wanted = with_headers(text::texts(bodies@), headers);
    let mut events: Vec<(String, String)> = Vec::new();
    let mut i: usize = 0;
    while i < bodies.len()
        invariant
            i <= bodies@.len(),
            headers == json::object_text(header_members(client_id@, access_token@, now_ms)),
            wanted == with_headers(text::texts(bodies@), headers),
            pairs_of(events@) == wanted.take(i as int),
        decreases bodies@.len() - i,
    {
        let ghost before = pairs_of(events@);
        events.push((bodies[i].clone(), build_headers(client_id, access_token, now_ms)));
        assert(wanted[i as int] == (bodies@[i as int]@, headers));
        assert(pairs_of(events@) =~= before.push(wanted[i as int]));
        assert(before.push(wanted[i as int]) =~= wanted.take(i + 1));
        i += 1;
    }
    assert(wanted.take(i as int) =~= wanted);
    sqs_form(events.as_slice())
}

/// The `Authorization` header of a post.
pub fn bearer(access_token: &str) -> (header: String)
    ensures
        header@ == "Bearer "@ + access_token@,
{
    let mut header = "Bearer ".to_string();
    header.append(access_token);
    header
}

// ---------------------------------------------------------------------------
// The outcome of a post
// ---------------------------------------------------------------------------

/// Outcome of a batch POST, from the HTTP status and SQS XML body.
#[derive(Clone, Copy, Debug, PartialEq, Eq, Structural)]
pub enum SendOutcome {
    /// All events accepted.
    Accepted,
    /// Auth rejected: the caller should refresh and retry once, then queue.
    AuthFailed,
    /// Transient (5xx/network): requeue for a later drain.
    Retryable,
    /// Malformed events (SenderFault): drop permanently, never requeue.
    SenderFault,
}

/// What the status of a reply and its body say. Any status that is neither an
/// auth failure, a server error nor a success is permanent, to avoid retry storms.
pub open spec fn outcome_of(status: u16, body: Seq<char>) -> SendOutcome {
    if status == 401 || status == 403 {
        SendOutcome::AuthFailed
    } else if 500 <= status < 600 {
        SendOutcome::Retryable
    } else if !(200 <= status < 300) {
        SendOutcome::SenderFault
    } else if text::occurs(body, "<BatchResultErrorEntry"@) {
        SendOutcome::SenderFault
    } else {
        SendOutcome::Accepted
    }
}

/// Classify a reply by its HTTP status code and its body.
pub fn classify(status: u16, body: &str) -> (outcome: SendOutcome)
    ensures
        outcome == outcome_of(status, body@),
{
    if status == 401 || status == 403 {
        return SendOutcome::AuthFailed;
    }
    if 500 <= status && status < 600 {
        return SendOutcome::Retryable;
    }
    if !(200 <= status && status < 300) {
        return SendOutcome::SenderFault;
    }
    if text::contains(body, "<BatchResultErrorEntry") {
        SendOutcome::SenderFault
    } else {
        SendOutcome::Accepted
    }
}

/// What came of a post.
#[derive(Debug)]
pub enum Reply {
    /// The server answered.
    Answered { status: u16, body: String },
    /// The request failed on the way.
    Failed,
    /// No answer came in time.
    TimedOut,
}

/// What came of a post, as an outcome: without an answer it is transient.
pub fn reply_outcome(reply: &Reply) -> (outcome: SendOutcome)
    ensures
        outcome == match reply {
            Reply::Answered { status, body } => outcome_of(*status, body@),
            Reply::Failed => SendOutcome::Retryable,
            Reply::TimedOut => SendOutcome::Retryable,
        },
{
    match reply {
        Reply::Answered { status, body } => classify(*status, body.as_str()),
        Reply::Failed => SendOutcome::Retryable,
        Reply::TimedOut => SendOutcome::Retryable,
    }
}

// ---------------------------------------------------------------------------
// Laws of the body, the headers and the form
// ---------------------------------------------------------------------------

/// A claim may be a number or spell one: either way it is read as that number.
pub proof fn law_claims_are_read_as_numbers(n: u64, signed: Option<i64>, float_bits: Option<u64>)
    ensures
        claim_number(
            Some(json::LeafView::Number { unsigned: Some(n), signed, float_bits }),
        ) == Some(n),
        claim_number(Some(json::LeafView::Text(text::decimal(n as nat)))) == Some(n),
        claim_number(None) is None,
        claim_number(Some(json::LeafView::Other)) is None,
{
    text::law_spelled_numbers_are_read(n);
}

/// Each claim is read from the member of its own name, and from no other.
pub proof fn law_claims_come_from_their_members(
    members: Seq<(Seq<char>, json::LeafView)>,
    sid: Seq<char>,
)
    ensures
        json::member(members, "sid"@) == Some(json::LeafView::Text(sid)) ==> claims_in(members).sid
            == Some(sid),
        json::member(members, "sid"@) is None ==> claims_in(members).sid is None,
        json::member(members, "uid"@) is None ==> claims_in(members).uid is None,
        json::member(members, "cid"@) is None ==> claims_in(members).cid is None,
        forall|n: u64|
            #![trigger text::decimal(n as nat)]
            json::member(members, "uid"@) == Some(json::LeafView::Text(text::decimal(n as nat)))
                ==> claims_in(members).uid == Some(n),
        forall|n: u64|
            #![trigger text::decimal(n as nat)]
            json::member(members, "cid"@) == Some(json::LeafView::Text(text::decimal(n as nat)))
                ==> claims_in(members).cid == Some(n),
{
    assert forall|n: u64| #![trigger text::decimal(n as nat)]
        text::spelled_u64(text::decimal(n as nat)) == Some(n) by {
        text::law_spelled_numbers_are_read(n);
    }
}

/// The payload carries the event's own facts, each under its name: what was asked for and
/// what was served, when and where the play began and ended, and where it came from.
pub proof fn law_the_payload_carries_the_event(ev: SessionEvent)
    ensures
        payload_members(ev).contains(("actualQuality"@, json::string_text(ev.quality@))),
        payload_members(ev).contains(("actualAudioMode"@, json::string_text(ev.audio_mode@))),
        payload_members(ev).contains(
            ("actualAssetPresentation"@, json::string_text(ev.presentation@)),
        ),
        payload_members(ev).contains(
            ("actualProductId"@, json::string_text(ev.actual_product_id@)),
        ),
        payload_members(ev).contains(
            (
                "requestedProductId"@,
                json::string_text(text::decimal(ev.requested_product_id as nat)),
            ),
        ),
        payload_members(ev).contains(("playbackSessionId"@, json::string_text(ev.session_id@))),
        payload_members(ev).contains(("productType"@, json::string_text("TRACK"@))),
        payload_members(ev).contains(("isPostPaywall"@, "true"@)),
        payload_members(ev).contains(
            ("startTimestamp"@, text::signed_decimal(ev.start_ts_ms as int)),
        ),
        payload_members(ev).contains(("endTimestamp"@, text::signed_decimal(ev.end_ts_ms as int))),
        payload_members(ev).contains(("startAssetPosition"@, json::seconds_text(0))),
        payload_members(ev).contains(
            ("endAssetPosition"@, json::seconds_text(ev.end_asset_pos_ns as nat)),
        ),
        ev.source matches Some((kind, id)) ==> {
            &&& payload_members(ev).contains(("sourceId"@, json::string_text(id@)))
            &&& payload_members(ev).contains(
                (
                    "sourceType"@,
                    json::string_text(
                        match kind {
                            SourceType::Album => "ALBUM"@,
                            SourceType::Playlist => "PLAYLIST"@,
                            SourceType::Artist => "ARTIST"@,
                            SourceType::Mix => "MIX"@,
                        },
                    ),
                ),
            )
        },
        payload_members(ev).len() == 15,
        json::ascending(payload_members(ev)),
{
    lemma_payload_keys(ev);
    let m = payload_members(ev);
    assert(m[1].0 == "actualAssetPresentation"@ && m[2].0 == "actualAudioMode"@);
    assert(m[3].0 == "actualProductId"@ && m[4].0 == "actualQuality"@);
    assert(m[5].0 == "endAssetPosition"@ && m[6].0 == "endTimestamp"@);
    assert(m[7].0 == "isPostPaywall"@ && m[8].0 == "playbackSessionId"@);
    assert(m[9].0 == "productType"@ && m[10].0 == "requestedProductId"@);
    assert(m[11].0 == "sourceId"@ && m[12].0 == "sourceType"@);
    assert(m[13].0 == "startAssetPosition"@ && m[14].0 == "startTimestamp"@);
}

/// The actions of the payload are two: the start of the play, at the beginning of the
/// track, and its stop, where and when the play ended.
pub proof fn law_the_actions_are_start_and_stop(ev: SessionEvent)
    ensures
        payload_members(ev).contains(
            (
                "actions"@,
                json::array_text(
                    seq![
                        json::object_text(
                            seq![
                                ("actionType"@, json::string_text("PLAYBACK_START"@)),
                                ("assetPosition"@, json::seconds_text(0)),
                                ("timestamp"@, text::signed_decimal(ev.start_ts_ms as int)),
                            ],
                        ),
                        json::object_text(
                            seq![
                                ("actionType"@, json::string_text("PLAYBACK_STOP"@)),
                                ("assetPosition"@, json::seconds_text(ev.end_asset_pos_ns as nat)),
                                ("timestamp"@, text::signed_decimal(ev.end_ts_ms as int)),
                            ],
                        ),
                    ],
                ),
            ),
        ),
{
    assert(payload_members(ev)[0].0 == "actions"@);
}

/// The body is a play log of version 2 that names its payload, its account and its client:
/// the account by the claims of the token, the client by the client id as a string.
pub proof fn law_the_body_names_play_account_and_client(
    ev: SessionEvent,
    claims: ClaimsView,
    uuid: Seq<char>,
)
    ensures
        body_text(ev, claims, uuid) == json::object_text(body_members(ev, claims, uuid)),
        body_members(ev, claims, uuid).contains(("group"@, json::string_text("play_log"@))),
        body_members(ev, claims, uuid).contains(("name"@, json::string_text("playback_session"@))),
        body_members(ev, claims, uuid).contains(("version"@, text::decimal(2))),
        body_members(ev, claims, uuid).contains(("uuid"@, json::string_text(uuid))),
        body_members(ev, claims, uuid).contains(
            ("ts"@, text::signed_decimal(ev.end_ts_ms as int)),
        ),
        body_members(ev, claims, uuid).contains(
            ("payload"@, json::object_text(payload_members(ev))),
        ),
        body_members(ev, claims, uuid).contains(("user"@, json::object_text(user_members(claims)))),
        body_members(ev, claims, uuid).contains(
            ("client"@, json::object_text(client_members(claims))),
        ),
        claims.uid matches Some(uid) ==> user_members(claims).contains(
            ("id"@, text::decimal(uid as nat)),
        ),
        claims.cid matches Some(cid) ==> {
            &&& user_members(claims).contains(("clientId"@, text::decimal(cid as nat)))
            &&& client_members(claims).contains(
                ("token"@, json::string_text(text::decimal(cid as nat))),
            )
        },
        claims.sid matches Some(sid) ==> user_members(claims).contains(
            ("sessionId"@, json::string_text(sid)),
        ),
        claims.uid is None ==> user_members(claims).contains(("id"@, "null"@)),
        claims.cid is None ==> user_members(claims).contains(("clientId"@, "null"@)),
        claims.sid is None ==> user_members(claims).contains(("sessionId"@, "null"@)),
        claims.cid is None ==> client_members(claims).contains(
            ("token"@, json::string_text(Seq::empty())),
        ),
        client_members(claims).contains(("platform"@, json::string_text("android"@))),
        client_members(claims).contains(("deviceType"@, json::string_text("androidAuto"@))),
        client_members(claims).contains(("version"@, json::string_text("0.1.0"@))),
{
    let b = body_members(ev, claims, uuid);
    assert(b[0].0 == "client"@ && b[1].0 == "group"@ && b[2].0 == "name"@ && b[3].0 == "payload"@);
    assert(b[4].0 == "ts"@ && b[5].0 == "user"@ && b[6].0 == "uuid"@ && b[7].0 == "version"@);
    let u = user_members(claims);
    assert(u[0].0 == "clientId"@ && u[1].0 == "id"@ && u[2].0 == "sessionId"@);
    let c = client_members(claims);
    assert(c[0].0 == "deviceType"@ && c[1].0 == "platform"@ && c[2].0 == "token"@ && c[3].0
        == "version"@);
}

/// Where the payloads of two events differ in one member at most, equal bodies mean that
/// the member is the same.
proof fn lemma_bodies_tell_members(
    a: SessionEvent,
    b: SessionEvent,
    claims: ClaimsView,
    uuid: Seq<char>,
    k: int,
)
    requires
        0 <= k < 15,
        a.end_ts_ms == b.end_ts_ms,
        forall|i: int|
            0 <= i < 15 && i != k ==> #[trigger] payload_members(a)[i] == payload_members(b)[i],
        body_text(a, claims, uuid) == body_text(b, claims, uuid),
    ensures
        payload_members(a)[k].1 == payload_members(b)[k].1,
{
    let x = body_members(a, claims, uuid);
    let y = body_members(b, claims, uuid);
    json::law_objects_tell_their_members(x, y, 3);
    assert(payload_members(a)[k].0 == payload_members(b)[k].0);
    json::law_objects_tell_their_members(payload_members(a), payload_members(b), k);
}

/// A body tells the quality that was served: two events that differ in that alone have different
/// bodies, whoever they are reported for.
#[verifier::spinoff_prover]
pub proof fn law_bodies_tell_the_quality(
    ev: SessionEvent,
    value: String,
    claims: ClaimsView,
    uuid: Seq<char>,
)
    requires
        value@ != ev.quality@,
    ensures
        body_text(SessionEvent { quality: value, ..ev }, claims, uuid) != body_text(
            ev,
            claims,
            uuid,
        ),
{
    let other = SessionEvent { quality: value, ..ev };
    if body_text(other, claims, uuid) == body_text(ev, claims, uuid) {
        lemma_bodies_tell_members(other, ev, claims, uuid, 4);
        json::law_strings_tell_their_texts(value@, ev.quality@);
    }
}

/// A body tells the audio mode that was served: two events that differ in that alone have different
/// bodies, whoever they are reported for.
#[verifier::spinoff_prover]
pub proof fn law_bodies_tell_the_audio_mode(
    ev: SessionEvent,
    value: String,
    claims: ClaimsView,
    uuid: Seq<char>,
)
    requires
        value@ != ev.audio_mode@,
    ensures
        body_text(SessionEvent { audio_mode: value, ..ev }, claims, uuid) != body_text(
            ev,
            claims,
            uuid,
        ),
{
    let other = SessionEvent { audio_mode: value, ..ev };
    if body_text(other, claims, uuid) == body_text(ev, claims, uuid) {
        lemma_bodies_tell_members(other, ev, claims, uuid, 2);
        json::law_strings_tell_their_texts(value@, ev.audio_mode@);
    }
}

/// A body tells how much of the track was served: two events that differ in that alone have different
/// bodies, whoever they are reported for.
#[verifier::spinoff_prover]
pub proof fn law_bodies_tell_the_presentation(
    ev: SessionEvent,
    value: String,
    claims: ClaimsView,
    uuid: Seq<char>,
)
    requires
        value@ != ev.presentation@,
    ensures
        body_text(SessionEvent { presentation: value, ..ev }, claims, uuid) != body_text(
            ev,
            claims,
            uuid,
        ),
{
    let other = SessionEvent { presentation: value, ..ev };
    if body_text(other, claims, uuid) == body_text(ev, claims, uuid) {
        lemma_bodies_tell_members(other, ev, claims, uuid, 1);
        json::law_strings_tell_their_texts(value@, ev.presentation@);
    }
}

/// A body tells the product that was served: two events that differ in that alone have different
/// bodies, whoever they are reported for.
#[verifier::spinoff_prover]
pub proof fn law_bodies_tell_the_served_product(
    ev: SessionEvent,
    value: String,
    claims: ClaimsView,
    uuid: Seq<char>,
)
    requires
        value@ != ev.actual_product_id@,
    ensures
        body_text(SessionEvent { actual_product_id: value, ..ev }, claims, uuid) != body_text(
            ev,
            claims,
            uuid,
        ),
{
    let other = SessionEvent { actual_product_id: value, ..ev };
    if body_text(other, claims, uuid) == body_text(ev, claims, uuid) {
        lemma_bodies_tell_members(other, ev, claims, uuid, 3);
        json::law_strings_tell_their_texts(value@, ev.actual_product_id@);
    }
}

/// A body tells its play session: two events that differ in that alone have different
/// bodies, whoever they are reported for.
#[verifier::spinoff_prover]
pub proof fn law_bodies_tell_the_session(
    ev: SessionEvent,
    value: String,
    claims: ClaimsView,
    uuid: Seq<char>,
)
    requires
        value@ != ev.session_id@,
    ensures
        body_text(SessionEvent { session_id: value, ..ev }, claims, uuid) != body_text(
            ev,
            claims,
            uuid,
        ),
{
    let other = SessionEvent { session_id: value, ..ev };
    if body_text(other, claims, uuid) == body_text(ev, claims, uuid) {
        lemma_bodies_tell_members(other, ev, claims, uuid, 8);
        json::law_strings_tell_their_texts(value@, ev.session_id@);
    }
}

/// A body tells what was asked for: two events for different products, alike in all else,
/// have different bodies.
#[verifier::spinoff_prover]
pub proof fn law_bodies_tell_the_requested_product(
    ev: SessionEvent,
    id: u64,
    claims: ClaimsView,
    uuid: Seq<char>,
)
    ensures
        id != ev.requested_product_id ==> body_text(
            SessionEvent { requested_product_id: id, ..ev },
            claims,
            uuid,
        ) != body_text(ev, claims, uuid),
{
    let other = SessionEvent { requested_product_id: id, ..ev };
    if body_text(other, claims, uuid) == body_text(ev, claims, uuid) {
        lemma_bodies_tell_members(other, ev, claims, uuid, 10);
        json::law_strings_tell_their_texts(
            text::decimal(id as nat),
            text::decimal(ev.requested_product_id as nat),
        );
        text::law_decimals_read_back(id as nat);
        text::law_decimals_read_back(ev.requested_product_id as nat);
    }
}

/// The headers carry the account and the time of sending, and say honestly who sends.
pub proof fn law_the_headers_carry_the_account(
    client_id: Seq<char>,
    token: Seq<char>,
    now_ms: i64,
)
    ensures
        header_members(client_id, token, now_ms).contains(
            ("authorization"@, json::string_text(token)),
        ),
        header_members(client_id, token, now_ms).contains(
            ("client-id"@, json::string_text(client_id)),
        ),
        header_members(client_id, token, now_ms).contains(
            (
                "requested-sent-timestamp"@,
                json::string_text(text::signed_decimal(now_ms as int)),
            ),
        ),
        header_members(client_id, token, now_ms).contains(
            ("app-name"@, json::string_text("SONE"@)),
        ),
        header_members(client_id, token, now_ms).contains(
            ("os-name"@, json::string_text("linux"@)),
        ),
        header_members(client_id, token, now_ms).contains(
            ("app-version"@, json::string_text("0.1.0"@)),
        ),
        header_members(client_id, token, now_ms).contains(
            ("consent-category"@, json::string_text("NECESSARY"@)),
        ),
        header_members(client_id, token, now_ms).len() == 7,
        json::ascending(header_members(client_id, token, now_ms)),
{
    lemma_header_keys(client_id, token, now_ms);
    let m = header_members(client_id, token, now_ms);
    assert(m[0].0 == "app-name"@ && m[1].0 == "app-version"@ && m[2].0 == "authorization"@);
    assert(m[3].0 == "client-id"@ && m[4].0 == "consent-category"@ && m[5].0 == "os-name"@);
    assert(m[6].0 == "requested-sent-timestamp"@);
}

/// The name of a field of a batch: the entry counts from one, in decimal.
pub open spec fn names_field(key: Seq<char>, entry: nat, field: Seq<char>) -> bool {
    key == "SendMessageBatchRequestEntry."@ + text::decimal(entry) + "."@ + field
}

/// An entry of a form carries its id, its body and two string attributes: the name of the
/// event, and the headers.
pub proof fn law_an_entry_carries_body_and_headers(
    n: nat,
    id: Seq<char>,
    body: Seq<char>,
    headers: Seq<char>,
)
    ensures
        ({
            let fields = entry_fields(n, id, body, headers);
            &&& fields.len() == 8
            &&& names_field(fields[0].0, n, "Id"@) && fields[0].1 == id
            &&& names_field(fields[1].0, n, "MessageBody"@) && fields[1].1 == body
            &&& names_field(fields[2].0, n, "MessageAttribute.1.Name"@) && fields[2].1 == "Name"@
            &&& names_field(fields[3].0, n, "MessageAttribute.1.Value.StringValue"@)
                && fields[3].1 == "playback_session"@
            &&& names_field(fields[4].0, n, "MessageAttribute.1.Value.DataType"@) && fields[4].1
                == "String"@
            &&& names_field(fields[5].0, n, "MessageAttribute.2.Name"@) && fields[5].1
                == "Headers"@
            &&& names_field(fields[6].0, n, "MessageAttribute.2.Value.StringValue"@)
                && fields[6].1 == headers
            &&& names_field(fields[7].0, n, "MessageAttribute.2.Value.DataType"@) && fields[7].1
                == "String"@
        }),
{
}

/// Every event of a batch goes out with its own body and with the one set of headers.
pub proof fn law_every_body_gets_the_headers(bodies: Seq<Seq<char>>, headers: Seq<char>, i: int)
    requires
        0 <= i < bodies.len(),
    ensures
        with_headers(bodies, headers).len() == bodies.len(),
        with_headers(bodies, headers)[i].0 == bodies[i],
        with_headers(bodies, headers)[i].1 == headers,
{
}

/// What a reply means, by its status alone but for a success: 401 and 403 refuse the
/// token, any 5xx is transient, a 2xx is accepted unless an entry is reported as failed,
/// and everything else is final.
pub proof fn law_a_reply_means_one_thing(status: u16, body: Seq<char>)
    ensures
        outcome_of(status, body) is AuthFailed <==> status == 401 || status == 403,
        outcome_of(status, body) is Retryable <==> 500 <= status <= 599,
        outcome_of(status, body) is Accepted <==> 200 <= status <= 299 && !text::occurs(
            body,
            "<BatchResultErrorEntry"@,
        ),
        outcome_of(status, body) is SenderFault <==> !(status == 401 || status == 403) && !(500
            <= status <= 599) && (200 <= status <= 299 ==> text::occurs(
            body,
            "<BatchResultErrorEntry"@,
        )),
{
}

/// A token needs no third segment, and a text without a dot is no token: it makes no claims.
pub proof fn law_two_segments_are_enough(head: Seq<char>, payload: Seq<u8>)
    requires
        forall|i: int| 0 <= i < head.len() ==> #[trigger] head[i] != '.',
    ensures
        token_claims(head + seq!['.'] + encoding::base64url(payload))
            == match json::object_members(payload) {
            Some(members) => claims_in(members),
            None => ClaimsView::none(),
        },
        token_claims(head) == ClaimsView::none(),
{
    encoding::law_base64url_reads_back(payload);
    encoding::lemma_symbols(payload);
    let middle = encoding::base64url(payload);
    let s = head + seq!['.'] + middle;
    text::lemma_span(s, is_dot(), head.len() as int);
    let rest = s.skip(head.len() as int + 1);
    assert(rest =~= middle);
    text::lemma_span(rest, is_dot(), middle.len() as int);
    assert(rest.take(middle.len() as int) =~= middle);
    text::lemma_span(head, is_dot(), head.len() as int);
}

} // verus!
