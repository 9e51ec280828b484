//! The reporter: it follows the playback lifecycle, decides which plays are
//! reported, and carries each report through sending, refreshing and requeueing.

use crate::clock::Moment;
use crate::random;
use crate::text;
use crate::tidal_report::event::{
    self, MAX_BATCH, SendOutcome, SessionEvent, SourceType,
};
use crate::tidal_report::queue::{self, OutboxFile, ReportQueue};
use crate::tidal_report::session::{self, PlaySession, StreamMeta};
use std::collections::HashMap;
use vstd::prelude::*;

verus! {

/// How many tracks' stream attributes are kept while they wait for their track.
pub const MAX_PENDING: usize = 16;

pub struct TidalReporter {
    pub enabled: bool,
    pub current: Option<PlaySession>,
    pub pending_meta: HashMap<u64, StreamMeta>,
    pub queue: ReportQueue,
}

// ---------------------------------------------------------------------------
// The model
// ---------------------------------------------------------------------------

/// `report` is what the end of this play calls for: an event if the play is due,
/// nothing otherwise.
pub open spec fn closes(
    session: Option<PlaySession>,
    natural_end: bool,
    now: Moment,
    report: Option<SessionEvent>,
) -> bool {
    match session {
        Some(s) => if s.is_due(now.tick_ns) {
            report matches Some(ev) && s.is_reported_by(ev, natural_end, now)
        } else {
            report is None
        },
        None => report is None,
    }
}

/// What can happen to a play before it ends.
pub ghost enum Step {
    Pause,
    Resume,
    Seek,
    /// The end of the track, or a stale report of it.
    Finish,
}

/// The play after a step at a tick.
pub open spec fn stepped(s: PlaySession, step: Step, tick: u64) -> PlaySession {
    match step {
        Step::Pause => s.paused(tick),
        Step::Resume => s.resumed(tick),
        Step::Seek => s.sought(tick),
        Step::Finish => PlaySession { reported: s.reported || s.counts(tick), ..s },
    }
}

/// `key` is among the longest-noted of the pending attributes.
pub open spec fn is_oldest(pending: Map<u64, StreamMeta>, key: u64) -> bool {
    &&& pending.contains_key(key)
    &&& forall|k: u64| #[trigger]
        pending.contains_key(k) ==> pending[key].at_ms <= pending[k].at_ms
}

/// The pending attributes once those of a track are noted: where they are too
/// many, a longest-noted one is gone.
pub open spec fn noted(
    pending: Map<u64, StreamMeta>,
    track_id: u64,
    meta: StreamMeta,
    after: Map<u64, StreamMeta>,
) -> bool {
    let grown = pending.insert(track_id, meta);
    if grown.len() > MAX_PENDING {
        exists|key: u64| is_oldest(grown, key) && after == #[trigger] grown.remove(key)
    } else {
        after == grown
    }
}

/// The container of a play that the frontend names, if TIDAL has a kind for it.
pub open spec fn source_of(source: Option<(String, String)>) -> Option<(SourceType, String)> {
    match source {
        Some((kind, id)) => match SourceType::of_sone(kind@) {
            Some(kind) => Some((kind, id)),
            None => None,
        },
        None => None,
    }
}

/// The play that is current after a track started.
pub open spec fn starts(
    pending: Map<u64, StreamMeta>,
    track_id: Option<u64>,
    duration_secs: u32,
    source: Option<(String, String)>,
    now: Moment,
    current: Option<PlaySession>,
) -> bool {
    match track_id {
        Some(id) => {
            &&& current matches Some(s)
            &&& s.is_new(id, duration_secs, source_of(source), now)
            &&& if pending.contains_key(id) {
                s.meta == pending[id]
            } else {
                s.meta.is_default()
            }
        },
        None => current is None,
    }
}

impl TidalReporter {
    /// Not more stream attributes wait than may.
    pub open spec fn wf(self) -> bool {
        self.pending_meta@.len() <= MAX_PENDING
    }

    /// Only the play may differ.
    pub open spec fn same_but_current(self, other: TidalReporter) -> bool {
        &&& self.enabled == other.enabled
        &&& self.pending_meta == other.pending_meta
        &&& self.queue == other.queue
    }
}

// ---------------------------------------------------------------------------
// Following the playback
// ---------------------------------------------------------------------------

impl TidalReporter {
    /// A reporter with the outbox of a decrypted file, and an empty one where there is none
    /// or it is not a list of entries. What was stored is there again.
    pub fn new(outbox: Option<OutboxFile>, enabled: bool) -> (reporter: Self)
        ensures
            reporter.enabled == enabled,
            reporter.current is None,
            reporter.pending_meta@ == Map::<u64, StreamMeta>::empty(),
            reporter.queue@ == queue::or_empty(queue::outbox_in(queue::file_view(outbox))),
            queue::reads_outbox_back(queue::file_view(outbox), reporter.queue@),
            reporter.wf(),
    {
        TidalReporter {
            enabled,
            current: None,
            pending_meta: HashMap::new(),
            queue: ReportQueue::new(outbox),
        }
    }

    pub fn enabled(&self) -> (on: bool)
        ensures
            on == self.enabled,
    {
        self.enabled
    }

    pub fn set_enabled(&mut self, on: bool)
        ensures
            *final(self) == (TidalReporter { enabled: on, ..*old(self) }),
    {
        self.enabled = on;
    }

    /// How many reports wait in the outbox.
    pub fn queue_size(&self) -> (n: usize)
        ensures
            n == self.queue@.len(),
    {
        self.queue.len()
    }

    /// The key of a longest-noted entry.
    fn oldest_pending(pending: &HashMap<u64, StreamMeta>) -> (oldest: Option<u64>)
        ensures
            match oldest {
                Some(key) => is_oldest(pending@, key),
                None => pending@.len() == 0,
            },
    {
        broadcast use vstd::std_specs::hash::group_hash_axioms;

        let mut oldest: Option<(u64, i64)> = None;
        for (key, meta) in it: pending.iter()
            invariant
                it.seq().len() == pending@.dom().len(),
                forall|i: int|
                    #![trigger it.seq()[i]]
                    0 <= i < it.seq().len() ==> pending@.contains_key(*it.seq()[i].0)
                        && pending@[*it.seq()[i].0] == *it.seq()[i].1,
                match oldest {
                    Some((k, at)) => {
                        &&& pending@.contains_key(k)
                        &&& pending@[k].at_ms == at
                        &&& forall|i: int|
                            #![trigger it.seq()[i]]
                            0 <= i < it.index() ==> at <= it.seq()[i].1.at_ms
                    },
                    None => it.index() == 0,
                },
        {
            let older: bool = match oldest {
                Some((_, at)) => meta.at_ms < at,
                None => true,
            };
            if older {
                oldest = Some((*key, meta.at_ms));
            }
        }
        match oldest {
            Some((key, _)) => Some(key),
            None => None,
        }
    }

    /// Record the actual served attributes for a track, keyed by id, to attach when
    /// it becomes current.
    pub fn note_stream_resolved(&mut self, track_id: u64, meta: StreamMeta)
        ensures
            !old(self).enabled ==> *final(self) == *old(self),
            old(self).enabled ==> {
                &&& noted(old(self).pending_meta@, track_id, meta, final(self).pending_meta@)
                &&& final(self).enabled == old(self).enabled
                &&& final(self).current == old(self).current
                &&& final(self).queue == old(self).queue
            },
            old(self).wf() ==> final(self).wf(),
    {
        broadcast use vstd::std_specs::hash::group_hash_axioms;

        if !self.enabled {
            return;
        }
        let ghost grown = self.pending_meta@.insert(track_id, meta);
        self.pending_meta.insert(track_id, meta);
        if self.pending_meta.len() > MAX_PENDING {
            if let Some(key) = Self::oldest_pending(&self.pending_meta) {
                self.pending_meta.remove(&key);
                assert(is_oldest(grown, key) && self.pending_meta@ == grown.remove(key));
            }
        }
    }

    /// Decide whether a closed play is reported.
    fn close_for_report(session: PlaySession, natural_end: bool, now: Moment) -> (report: Option<
        SessionEvent,
    >)
        ensures
            closes(Some(session), natural_end, now, report),
    {
        if session.reported {
            return None;
        }
        if !session.meets_threshold(now.tick_ns) {
            return None;
        }
        Some(session.to_event(natural_end, now))
    }

    /// A track starts. The play that it displaces (by a skip; one that ended by
    /// itself has been reported) is closed, and its report returned.
    pub fn on_track_started(
        &mut self,
        track_id: Option<u64>,
        duration_secs: u32,
        source: Option<(String, String)>,
        now: Moment,
    ) -> (report: Option<SessionEvent>)
        ensures
            !old(self).enabled ==> report is None && *final(self) == *old(self),
            old(self).enabled ==> {
                &&& closes(old(self).current, false, now, report)
                &&& starts(
                    old(self).pending_meta@,
                    track_id,
                    duration_secs,
                    source,
                    now,
                    final(self).current,
                )
                &&& final(self).pending_meta@ == match track_id {
                    Some(id) => old(self).pending_meta@.remove(id),
                    None => old(self).pending_meta@,
                }
                &&& final(self).enabled == old(self).enabled
                &&& final(self).queue == old(self).queue
            },
            old(self).wf() ==> final(self).wf(),
    {
        broadcast use vstd::std_specs::hash::group_hash_axioms;

        if !self.enabled {
            return None;
        }
        let report = match self.current.take() {
            Some(session) => Self::close_for_report(session, false, now),
            None => None,
        };
        let id: u64 = match track_id {
            Some(id) => id,
            None => {
                return report;
            },
        };
        let meta = match self.pending_meta.remove(&id) {
            Some(meta) => meta,
            None => StreamMeta::default(),
        };
        let source = match source {
            Some((kind, id)) => match SourceType::from_sone(kind.as_str()) {
                Some(kind) => Some((kind, id)),
                None => None,
            },
            None => None,
        };
        self.current = Some(PlaySession::new(id, duration_secs, meta, source, now));
        report
    }

    pub fn on_pause(&mut self, now: Moment)
        ensures
            !old(self).enabled ==> *final(self) == *old(self),
            old(self).enabled ==> final(self).same_but_current(*old(self)) && final(self).current
                == match old(self).current {
                Some(s) => Some(stepped(s, Step::Pause, now.tick_ns)),
                None => None,
            },
            old(self).wf() ==> final(self).wf(),
    {
        if self.enabled {
            if let Some(mut session) = self.current.take() {
                session.pause(now.tick_ns);
                self.current = Some(session);
            }
        }
    }

    pub fn on_resume(&mut self, now: Moment)
        ensures
            !old(self).enabled ==> *final(self) == *old(self),
            old(self).enabled ==> final(self).same_but_current(*old(self)) && final(self).current
                == match old(self).current {
                Some(s) => Some(stepped(s, Step::Resume, now.tick_ns)),
                None => None,
            },
            old(self).wf() ==> final(self).wf(),
    {
        if self.enabled {
            if let Some(mut session) = self.current.take() {
                session.resume(now.tick_ns);
                self.current = Some(session);
            }
        }
    }

    pub fn on_seek(&mut self, now: Moment)
        ensures
            !old(self).enabled ==> *final(self) == *old(self),
            old(self).enabled ==> final(self).same_but_current(*old(self)) && final(self).current
                == match old(self).current {
                Some(s) => Some(stepped(s, Step::Seek, now.tick_ns)),
                None => None,
            },
            old(self).wf() ==> final(self).wf(),
    {
        if self.enabled {
            if let Some(mut session) = self.current.take() {
                session.on_seek(now.tick_ns);
                self.current = Some(session);
            }
        }
    }

    /// Natural end / gapless advance: the play is reported but kept (a guard against
    /// a duplicate stale end of stream), marked so that nothing reports it again.
    pub fn try_finish(&mut self, now: Moment) -> (report: Option<SessionEvent>)
        ensures
            !old(self).enabled ==> report is None && *final(self) == *old(self),
            old(self).enabled ==> {
                &&& closes(old(self).current, true, now, report)
                &&& final(self).same_but_current(*old(self))
                &&& final(self).current == match old(self).current {
                    Some(s) => Some(stepped(s, Step::Finish, now.tick_ns)),
                    None => None,
                }
            },
            old(self).wf() ==> final(self).wf(),
    {
        if !self.enabled {
            return None;
        }
        match self.current.take() {
            Some(mut session) => {
                let mut report: Option<SessionEvent> = None;
                if !session.reported && session.meets_threshold(now.tick_ns) {
                    report = Some(session.to_event(true, now));
                    session.reported = true;
                }
                self.current = Some(session);
                report
            },
            None => None,
        }
    }

    /// Playback stopped: the play is closed, and its report returned.
    pub fn on_track_stopped(&mut self, now: Moment) -> (report: Option<SessionEvent>)
        ensures
            !old(self).enabled ==> report is None && *final(self) == *old(self),
            old(self).enabled ==> {
                &&& closes(old(self).current, false, now, report)
                &&& final(self).same_but_current(*old(self))
                &&& final(self).current is None
            },
            old(self).wf() ==> final(self).wf(),
    {
        if !self.enabled {
            return None;
        }
        match self.current.take() {
            Some(session) => Self::close_for_report(session, false, now),
            None => None,
        }
    }

    /// Logout: drop everything pending.
    pub fn clear(&mut self)
        ensures
            final(self).current is None,
            final(self).pending_meta@ == Map::<u64, StreamMeta>::empty(),
            final(self).queue@ == Seq::<queue::EntryView>::empty(),
            final(self).enabled == old(self).enabled,
            final(self).wf(),
    {
        self.current = None;
        self.pending_meta.clear();
        self.queue.clear();
    }

    /// Shutdown: the report of the play that is under way, for a last short attempt
    /// at sending it before the outbox is stored.
    pub fn flush(&mut self, now: Moment) -> (report: Option<SessionEvent>)
        ensures
            !old(self).enabled ==> report is None && *final(self) == *old(self),
            old(self).enabled ==> {
                &&& closes(old(self).current, false, now, report)
                &&& final(self).same_but_current(*old(self))
                &&& final(self).current is None
            },
            old(self).wf() ==> final(self).wf(),
    {
        self.on_track_stopped(now)
    }
}

// ---------------------------------------------------------------------------
// Sending
// ---------------------------------------------------------------------------

/// What a post needs of the signed-in account.
#[derive(Debug)]
pub struct Account {
    pub access_token: String,
    pub client_id: String,
}

/// Where a post stands.
#[derive(Clone, Copy, Debug, PartialEq, Eq, Structural)]
pub enum PostStage {
    /// It waits for the account.
    Token,
    /// It was sent and waits for the reply.
    FirstReply,
    /// The token was refused: it waits for the account with a refreshed one.
    Refresh,
    /// It was sent again and waits for the reply.
    SecondReply,
    /// It failed: its events go back into the outbox.
    Requeue,
    /// It is over: its events were accepted, or rejected for good.
    Done,
}

/// A request to [`event::EC_URL`].
#[derive(Debug)]
pub struct Request {
    pub authorization: String,
    pub form: Vec<(String, String)>,
}

/// A batch of events (bodies with prior attempt counts) on its way.
#[derive(Debug)]
pub struct Post {
    pub items: Vec<(String, u32)>,
    pub stage: PostStage,
}

/// The bodies of a batch.
pub open spec fn bodies_of(items: Seq<(Seq<char>, u32)>) -> Seq<Seq<char>> {
    items.map_values(|item: (Seq<char>, u32)| item.0)
}

/// `form` posts these bodies under fresh ids, with the account's headers.
pub open spec fn posts(
    form: Seq<(Seq<char>, Seq<char>)>,
    bodies: Seq<Seq<char>>,
    account: Account,
    now_ms: i64,
) -> bool {
    let headers = crate::json::object_text(
        event::header_members(account.client_id@, account.access_token@, now_ms),
    );
    exists|ids: Seq<Seq<char>>|
        {
            &&& ids.len() == bodies.len()
            &&& forall|i: int| 0 <= i < ids.len() ==> random::is_uuid_v4(#[trigger] ids[i])
            &&& form == #[trigger] event::form_fields(event::with_headers(bodies, headers), ids)
        }
}

/// The stage once the account is known, or known to be missing.
pub open spec fn after_account(stage: PostStage, signed_in: bool) -> PostStage {
    if !signed_in {
        PostStage::Requeue
    } else if stage is Refresh {
        PostStage::SecondReply
    } else {
        PostStage::FirstReply
    }
}

/// The stage once the reply is in: a refused token is refreshed once.
pub open spec fn after_reply(stage: PostStage, outcome: SendOutcome) -> PostStage {
    match outcome {
        SendOutcome::Accepted | SendOutcome::SenderFault => PostStage::Done,
        SendOutcome::Retryable => PostStage::Requeue,
        SendOutcome::AuthFailed => if stage is FirstReply {
            PostStage::Refresh
        } else {
            PostStage::Requeue
        },
    }
}

impl Post {
    /// A batch to post; an empty one is over at once.
    pub fn new(items: Vec<(String, u32)>) -> (post: Self)
        ensures
            post.items == items,
            post.stage == if items@.len() == 0 {
                PostStage::Done
            } else {
                PostStage::Token
            },
    {
        let stage = if items.len() == 0 {
            PostStage::Done
        } else {
            PostStage::Token
        };
        Post { items, stage }
    }

    /// The account came in, or there is none (nobody is signed in, or the refresh
    /// failed). Returns the request to send.
    pub fn on_account(&mut self, account: Option<Account>, now_ms: i64) -> (request: Option<Request>)
        requires
            old(self).stage is Token || old(self).stage is Refresh,
        ensures
            final(self).items == old(self).items,
            final(self).stage == after_account(old(self).stage, account is Some),
            match account {
                Some(account) => {
                    &&& request matches Some(request)
                    &&& request.authorization@ == "Bearer "@ + account.access_token@
                    &&& posts(
                        event::pairs_of(request.form@),
                        bodies_of(queue::items_view(old(self).items@)),
                        account,
                        now_ms,
                    )
                },
                None => request is None,
            },
    {
        match account {
            Some(account) => {
                self.stage = if self.stage == PostStage::Refresh {
                    PostStage::SecondReply
                } else {
                    PostStage::FirstReply
                };
                let ghost wanted = bodies_of(queue::items_view(self.items@));
                let mut bodies: Vec<String> = Vec::new();
                let mut i: usize = 0;
                while i < self.items.len()
                    invariant
                        i <= self.items@.len(),
                        wanted == bodies_of(queue::items_view(self.items@)),
                        text::texts(bodies@) == wanted.take(i as int),
                    decreases self.items@.len() - i,
                {
                    let ghost before = text::texts(bodies@);
                    bodies.push(self.items[i].0.clone());
                    assert(wanted[i as int] == self.items@[i as int].0@);
                    assert(text::texts(bodies@) =~= before.push(wanted[i as int]));
                    assert(before.push(wanted[i as int]) =~= wanted.take(i + 1));
                    i += 1;
                }
                assert(wanted.take(i as int) =~= wanted);
                let form = event::batch_form(
                    &bodies,
                    account.access_token.as_str(),
                    account.client_id.as_str(),
                    now_ms,
                );
                assert(text::texts(bodies@).len() == bodies@.len());
                let authorization = event::bearer(account.access_token.as_str());
                Some(Request { authorization, form })
            },
            None => {
                self.stage = PostStage::Requeue;
                None
            },
        }
    }

    /// The reply came in.
    pub fn on_reply(&mut self, outcome: SendOutcome)
        requires
            old(self).stage is FirstReply || old(self).stage is SecondReply,
        ensures
            final(self).items == old(self).items,
            final(self).stage == after_reply(old(self).stage, outcome),
    {
        self.stage = match outcome {
            SendOutcome::Accepted | SendOutcome::SenderFault => PostStage::Done,
            SendOutcome::Retryable => PostStage::Requeue,
            SendOutcome::AuthFailed => if self.stage == PostStage::FirstReply {
                PostStage::Refresh
            } else {
                PostStage::Requeue
            },
        };
    }
}

/// A frozen MessageBody for an event, using the token's claims. Without a token
/// there is none.
pub fn build_body(ev: &SessionEvent, access_token: Option<&str>) -> (body: Option<String>)
    ensures
        match access_token {
            Some(token) => {
                &&& body matches Some(body)
                &&& exists|uuid: Seq<char>|
                    random::is_uuid_v4(uuid) && body@ == #[trigger] event::body_text(
                        *ev,
                        event::token_claims(token@),
                        uuid,
                    )
            },
            None => body is None,
        },
{
    match access_token {
        Some(token) => {
            let claims = event::parse_claims(token);
            Some(event::build_body(ev, &claims))
        },
        None => None,
    }
}

/// The post of one new report: its body, never tried before. Without a token the
/// play cannot be reported.
pub fn dispatch(ev: &SessionEvent, access_token: Option<&str>) -> (post: Option<Post>)
    ensures
        match access_token {
            Some(token) => {
                &&& post matches Some(post)
                &&& post.stage is Token
                &&& post.items@.len() == 1
                &&& post.items@[0].1 == 0
                &&& exists|uuid: Seq<char>|
                    random::is_uuid_v4(uuid) && post.items@[0].0@ == #[trigger] event::body_text(
                        *ev,
                        event::token_claims(token@),
                        uuid,
                    )
            },
            None => post is None,
        },
{
    match build_body(ev, access_token) {
        Some(body) => {
            let mut items: Vec<(String, u32)> = Vec::new();
            items.push((body, 0));
            Some(Post::new(items))
        },
        None => None,
    }
}

/// How much of the outbox is still to be posted once this many entries were taken.
pub open spec fn left_after(remaining: nat, taken: nat) -> nat {
    if taken < remaining {
        (remaining - taken) as nat
    } else {
        0
    }
}

/// The items of a post; none where there is no post.
pub open spec fn items_of(post: Option<Post>) -> Seq<(Seq<char>, u32)> {
    match post {
        Some(post) => queue::items_view(post.items@),
        None => Seq::empty(),
    }
}

/// How much of the outbox is still to be posted in this round.
#[derive(Debug)]
pub struct Drain {
    pub remaining: usize,
}

impl TidalReporter {
    /// A post is over: put its events back into the outbox if it failed. Returns
    /// whether the outbox is to be stored again.
    pub fn settle(&mut self, post: Post, now: i64) -> (changed: bool)
        ensures
            final(self).queue@ == if post.stage is Requeue {
                queue::after_requeue(old(self).queue@, queue::items_view(post.items@), now)
            } else {
                old(self).queue@
            },
            changed == (post.stage is Requeue && post.items@.len() > 0),
            final(self).enabled == old(self).enabled,
            final(self).current == old(self).current,
            final(self).pending_meta == old(self).pending_meta,
    {
        if post.stage == PostStage::Requeue {
            self.queue.requeue(post.items, now)
        } else {
            false
        }
    }

    /// Startup / on-enable: flush the offline outbox. A round posts as many entries
    /// as wait when it begins, so what fails and is requeued does not keep it going.
    pub fn drain_queue(&self) -> (drain: Drain)
        ensures
            drain.remaining == if self.enabled {
                self.queue@.len()
            } else {
                0
            },
    {
        if self.enabled {
            Drain { remaining: self.queue.len() }
        } else {
            Drain { remaining: 0 }
        }
    }

    /// The next batch of the round, or `None` when the round is over.
    pub fn next_batch(&mut self, drain: &mut Drain, now: i64) -> (post: Option<Post>)
        ensures
            old(drain).remaining == 0 ==> post is None && *final(self) == *old(self)
                && *final(drain) == *old(drain),
            old(drain).remaining > 0 ==> {
                let taken = queue::batch(old(self).queue@, MAX_BATCH as nat, now);
                &&& final(self).queue@ == queue::after_batch(
                    old(self).queue@,
                    MAX_BATCH as nat,
                    now,
                )
                &&& final(self).enabled == old(self).enabled
                &&& final(self).current == old(self).current
                &&& final(self).pending_meta == old(self).pending_meta
                &&& if taken.len() == 0 {
                    post is None && final(drain).remaining == 0
                } else {
                    &&& post matches Some(post)
                    &&& post.stage is Token
                    &&& queue::items_view(post.items@) == taken
                    &&& final(drain).remaining == left_after(old(drain).remaining as nat, taken.len())
                }
            },
            post matches Some(post) ==> post.items@.len() <= MAX_BATCH && final(drain).remaining
                < old(drain).remaining,
            takes_batch(
                Drained {
                    queue: old(self).queue@,
                    remaining: old(drain).remaining as nat,
                    posted: 0,
                },
                now,
                final(self).queue@,
                final(drain).remaining as nat,
                items_of(post),
            ),
    {
        if drain.remaining == 0 {
            return None;
        }
        let items = self.queue.take_batch(MAX_BATCH, now);
        assert(items@.len() == queue::items_view(items@).len());
        if items.len() == 0 {
            assert(queue::items_view(items@) =~= Seq::empty());
            drain.remaining = 0;
            return None;
        }
        drain.remaining = drain.remaining.saturating_sub(items.len());
        Some(Post::new(items))
    }
}

// ---------------------------------------------------------------------------
// Laws
// ---------------------------------------------------------------------------

/// A play is reported once at most: after `try_finish` reported it, whatever pauses,
/// resumes and seeks follow, its close reports nothing.
pub proof fn law_a_play_is_reported_once(
    s: PlaySession,
    tick: u64,
    natural_end: bool,
    later: Moment,
    report: Option<SessionEvent>,
)
    requires
        s.reported,
        closes(Some(s), natural_end, later, report),
    ensures
        report is None,
        s.paused(tick).reported,
        s.resumed(tick).reported,
        s.sought(tick).reported,
{
}

/// One event per play that meets the listen threshold: a play that was not reported
/// yet is reported when it ends exactly if it was listened to for 30 seconds.
pub proof fn law_a_play_that_counts_is_reported(
    s: PlaySession,
    natural_end: bool,
    now: Moment,
    report: Option<SessionEvent>,
)
    requires
        !s.reported,
        closes(Some(s), natural_end, now, report),
    ensures
        report is Some <==> s.elapsed_ns(now.tick_ns) >= 30_000_000_000,
{
}

/// The play after a history of steps.
pub open spec fn played(s: PlaySession, steps: Seq<(Step, u64)>) -> PlaySession
    decreases steps.len(),
{
    if steps.len() == 0 {
        s
    } else {
        stepped(played(s, steps.drop_last()), steps.last().0, steps.last().1)
    }
}

/// How many reports go out at a step: one at the end of a track, if the play is due.
pub open spec fn reports_at(s: PlaySession, step: Step, tick: u64) -> nat {
    if step is Finish && s.is_due(tick) {
        1
    } else {
        0
    }
}

/// How many reports go out during a history of steps.
pub open spec fn reports_during(s: PlaySession, steps: Seq<(Step, u64)>) -> nat
    decreases steps.len(),
{
    if steps.len() == 0 {
        0
    } else {
        reports_during(s, steps.drop_last()) + reports_at(
            played(s, steps.drop_last()),
            steps.last().0,
            steps.last().1,
        )
    }
}

/// A step of the reporter is one step of the history: where `on_pause`, `on_resume`,
/// `on_seek` or `try_finish` leave `after` of the play, the history goes on by that step,
/// and the reports that went out by what `try_finish` returned.
pub proof fn law_a_step_extends_the_history(
    s: PlaySession,
    steps: Seq<(Step, u64)>,
    step: Step,
    now: Moment,
    after: PlaySession,
    report: Option<SessionEvent>,
)
    requires
        after == stepped(played(s, steps), step, now.tick_ns),
        if step is Finish {
            closes(Some(played(s, steps)), true, now, report)
        } else {
            report is None
        },
    ensures
        played(s, steps.push((step, now.tick_ns))) == after,
        reports_during(s, steps.push((step, now.tick_ns))) == reports_during(s, steps) + (
        if report is Some {
            1nat
        } else {
            0nat
        }),
{
    let more = steps.push((step, now.tick_ns));
    assert(more.drop_last() =~= steps);
    assert(more.last() == (step, now.tick_ns));
}

/// The ticks of the steps do not run backwards, and none is past `end`.
pub open spec fn in_order(steps: Seq<(Step, u64)>, end: u64) -> bool {
    &&& forall|i: int| 0 <= i < steps.len() ==> (#[trigger] steps[i]).1 <= end
    &&& forall|i: int, j: int|
        0 <= i < j < steps.len() ==> (#[trigger] steps[i]).1 <= (#[trigger] steps[j]).1
}

/// One event per play that meets the listen threshold: over the whole life of a play,
/// from its start to the stop or the next track that ends it, with any pauses, resumes,
/// seeks and ends of track in between, one report goes out if the play was listened to
/// for 30 seconds, and none otherwise.
pub proof fn law_one_event_per_play_that_counts(
    s: PlaySession,
    steps: Seq<(Step, u64)>,
    end: u64,
)
    requires
        !s.reported,
        in_order(steps, end),
    ensures
        ({
            let last = played(s, steps);
            let at_end: nat = if last.is_due(end) {
                1
            } else {
                0
            };
            reports_during(s, steps) + at_end == if last.counts(end) {
                1nat
            } else {
                0nat
            }
        }),
{
    lemma_reported_plays_count(s, steps, end);
}

/// A play is marked exactly when its report went out, which happens once at most, and
/// a play that was reported counts from then on.
proof fn lemma_reported_plays_count(s: PlaySession, steps: Seq<(Step, u64)>, end: u64)
    requires
        !s.reported,
        in_order(steps, end),
    ensures
        played(s, steps).reported <==> reports_during(s, steps) == 1,
        reports_during(s, steps) <= 1,
        played(s, steps).reported ==> played(s, steps).counts(end),
    decreases steps.len(),
{
    if steps.len() > 0 {
        let rest = steps.drop_last();
        let (step, tick) = steps.last();
        assert forall|i: int| 0 <= i < rest.len() implies (#[trigger] rest[i]).1 <= tick by {
            assert(rest[i] == steps[i]);
            assert(steps[i].1 <= steps[steps.len() - 1].1);
        }
        assert forall|i: int, j: int| 0 <= i < j < rest.len() implies (#[trigger] rest[i]).1 <= (
        #[trigger] rest[j]).1 by {
            assert(rest[i] == steps[i] && rest[j] == steps[j]);
        }
        assert(tick <= end) by {
            assert(steps[steps.len() - 1].1 <= end);
        }
        lemma_reported_plays_count(s, rest, tick);
        let before = played(s, rest);
        session::law_listening_time_never_shrinks(before, tick, end);
    }
}

/// A batch of a drain: when it was taken, whether its post failed, and when it was
/// put back then.
pub ghost struct Batch {
    pub taken_at: i64,
    pub failed: bool,
    pub settled_at: i64,
}

/// How a drain stands: the outbox, how much of it is still to be posted, and how many
/// batches were posted.
pub ghost struct Drained {
    pub queue: Seq<queue::EntryView>,
    pub remaining: nat,
    pub posted: nat,
}

/// The drain after one more batch was asked for, and posted if there was one.
pub open spec fn drained_once(d: Drained, batch: Batch) -> Drained {
    let taken = queue::batch(d.queue, MAX_BATCH as nat, batch.taken_at);
    let rest = queue::after_batch(d.queue, MAX_BATCH as nat, batch.taken_at);
    if d.remaining == 0 {
        d
    } else if taken.len() == 0 {
        Drained { queue: rest, remaining: 0, ..d }
    } else {
        Drained {
            queue: if batch.failed {
                queue::after_requeue(rest, taken, batch.settled_at)
            } else {
                rest
            },
            remaining: left_after(d.remaining, taken.len()),
            posted: d.posted + 1,
        }
    }
}

/// A drain of this outbox after as many batches as these were asked for.
pub open spec fn drained(entries: Seq<queue::EntryView>, batches: Seq<Batch>) -> Drained
    decreases batches.len(),
{
    if batches.len() == 0 {
        Drained { queue: entries, remaining: entries.len(), posted: 0 }
    } else {
        drained_once(drained(entries, batches.drop_last()), batches.last())
    }
}

/// What `next_batch` leaves of the outbox and of the round, and the items that it hands
/// out (none where it hands out no post).
pub open spec fn takes_batch(
    d: Drained,
    taken_at: i64,
    queue: Seq<queue::EntryView>,
    remaining: nat,
    items: Seq<(Seq<char>, u32)>,
) -> bool {
    if d.remaining == 0 {
        queue == d.queue && remaining == 0 && items.len() == 0
    } else {
        let taken = queue::batch(d.queue, MAX_BATCH as nat, taken_at);
        &&& queue == queue::after_batch(d.queue, MAX_BATCH as nat, taken_at)
        &&& items == taken
        &&& remaining == if taken.len() == 0 {
            0
        } else {
            left_after(d.remaining, taken.len())
        }
    }
}

/// A batch of the reporter is one step of a drain: what `next_batch` takes, and `settle`
/// puts back where the post failed, is what `drained` goes on by.
pub proof fn law_a_batch_extends_the_drain(
    entries: Seq<queue::EntryView>,
    batches: Seq<Batch>,
    batch: Batch,
    taken_from: Seq<queue::EntryView>,
    remaining: nat,
    items: Seq<(Seq<char>, u32)>,
    settled: Seq<queue::EntryView>,
)
    requires
        takes_batch(drained(entries, batches), batch.taken_at, taken_from, remaining, items),
        settled == if batch.failed && items.len() > 0 {
            queue::after_requeue(taken_from, items, batch.settled_at)
        } else {
            taken_from
        },
    ensures
        drained(entries, batches.push(batch)).queue == settled,
        drained(entries, batches.push(batch)).remaining == remaining,
        drained(entries, batches.push(batch)).posted == drained(entries, batches).posted + (
        if items.len() > 0 {
            1nat
        } else {
            0nat
        }),
{
    let more = batches.push(batch);
    assert(more.drop_last() =~= batches);
    assert(more.last() == batch);
}

/// A drain ends, whatever comes of its posts: it posts at most as many batches as
/// entries waited, and once it was asked for that many it is over.
pub proof fn law_a_drain_ends(entries: Seq<queue::EntryView>, batches: Seq<Batch>)
    ensures
        drained(entries, batches).posted <= entries.len(),
        batches.len() >= entries.len() ==> drained(entries, batches).remaining == 0,
{
    lemma_drain_progress(entries, batches);
}

/// Each batch of a drain leaves less to be posted, until nothing is left.
proof fn lemma_drain_progress(entries: Seq<queue::EntryView>, batches: Seq<Batch>)
    ensures
        drained(entries, batches).posted + drained(entries, batches).remaining <= entries.len(),
        drained(entries, batches).remaining > 0 ==> drained(entries, batches).remaining
            + batches.len() <= entries.len(),
    decreases batches.len(),
{
    if batches.len() > 0 {
        lemma_drain_progress(entries, batches.drop_last());
    }
}

/// A drain whose posts are all accepted leaves the outbox empty.
pub proof fn law_an_accepted_drain_empties_the_outbox(
    entries: Seq<queue::EntryView>,
    batches: Seq<Batch>,
)
    requires
        batches.len() >= entries.len(),
        forall|i: int| 0 <= i < batches.len() ==> !(#[trigger] batches[i]).failed,
    ensures
        drained(entries, batches).queue.len() == 0,
{
    lemma_drain_progress(entries, batches);
    lemma_accepted_drain(entries, batches);
}

/// While all posts are accepted, no more waits than is still to be posted.
proof fn lemma_accepted_drain(entries: Seq<queue::EntryView>, batches: Seq<Batch>)
    requires
        forall|i: int| 0 <= i < batches.len() ==> !(#[trigger] batches[i]).failed,
    ensures
        drained(entries, batches).queue.len() <= drained(entries, batches).remaining,
    decreases batches.len(),
{
    broadcast use vstd::seq_lib::group_filter_ensures;

    if batches.len() > 0 {
        let rest = batches.drop_last();
        assert forall|i: int| 0 <= i < rest.len() implies !(#[trigger] rest[i]).failed by {
            assert(rest[i] == batches[i]);
        }
        lemma_accepted_drain(entries, rest);
        let d = drained(entries, rest);
        let now = batches.last().taken_at;
        assert(!batches.last().failed) by {
            assert(batches.last() == batches[batches.len() - 1]);
        }
        assert(queue::live(d.queue, now).len() <= d.queue.len());
    }
}

/// Nothing is reported of a play that was dropped: after a logout purged what is
/// followed, stopping the playback reports nothing.
pub proof fn law_a_purged_play_is_not_reported(
    reporter: TidalReporter,
    natural_end: bool,
    now: Moment,
    report: Option<SessionEvent>,
)
    requires
        reporter.current is None,
        closes(reporter.current, natural_end, now, report),
    ensures
        report is None,
{
}

/// However a track is noted, the attributes that wait stay within the cap, and the
/// ones of that track are there unless they are themselves the oldest.
pub proof fn law_noted_attributes_stay_bounded(
    pending: Map<u64, StreamMeta>,
    track_id: u64,
    meta: StreamMeta,
    after: Map<u64, StreamMeta>,
)
    requires
        pending.dom().finite(),
        pending.len() <= MAX_PENDING,
        noted(pending, track_id, meta, after),
    ensures
        after.len() <= MAX_PENDING,
        after.contains_key(track_id) ==> after[track_id] == meta,
        !after.contains_key(track_id) ==> forall|k: u64| #[trigger]
            pending.contains_key(k) ==> k == track_id || meta.at_ms <= pending[k].at_ms,
{
    let grown = pending.insert(track_id, meta);
    if grown.len() > MAX_PENDING {
        let key = choose|key: u64| is_oldest(grown, key) && after == #[trigger] grown.remove(key);
        assert(grown.dom().finite());
        assert(grown.remove(key).len() == grown.len() - 1);
        if !after.contains_key(track_id) {
            assert(key == track_id);
            assert forall|k: u64| #[trigger] pending.contains_key(k) implies k == track_id
                || meta.at_ms <= pending[k].at_ms by {
                assert(grown.contains_key(k));
            }
        }
    }
}

/// How far a post has come.
pub open spec fn progress(stage: PostStage) -> nat {
    match stage {
        PostStage::Token => 0,
        PostStage::FirstReply => 1,
        PostStage::Refresh => 2,
        PostStage::SecondReply => 3,
        PostStage::Requeue => 4,
        PostStage::Done => 4,
    }
}

/// A post only goes forward, so it comes to an end, and it is sent twice at most:
/// a request goes out only on the way to the first and to the second reply.
pub proof fn law_a_post_is_sent_twice_at_most(
    stage: PostStage,
    signed_in: bool,
    outcome: SendOutcome,
)
    ensures
        stage is Token || stage is Refresh ==> {
            &&& progress(after_account(stage, signed_in)) > progress(stage)
            &&& signed_in <==> after_account(stage, signed_in) is FirstReply || after_account(
                stage,
                signed_in,
            ) is SecondReply
        },
        stage is FirstReply || stage is SecondReply ==> {
            &&& progress(after_reply(stage, outcome)) > progress(stage)
            &&& !(after_reply(stage, outcome) is FirstReply || after_reply(
                stage,
                outcome,
            ) is SecondReply)
        },
{
}

/// How a post ends, by what came back: whether somebody was signed in, the first
/// reply, whether the refresh worked, the second reply.
pub open spec fn post_end(
    signed_in: bool,
    first: SendOutcome,
    refreshed: bool,
    second: SendOutcome,
) -> PostStage {
    let sent = after_account(PostStage::Token, signed_in);
    if !(sent is FirstReply) {
        sent
    } else {
        let replied = after_reply(sent, first);
        if !(replied is Refresh) {
            replied
        } else {
            let resent = after_account(replied, refreshed);
            if resent is SecondReply {
                after_reply(resent, second)
            } else {
                resent
            }
        }
    }
}

/// The stages of a post lead to `post_end`: those that `on_account` and `on_reply` leave,
/// each asked for only where the one before it waits for it.
pub proof fn law_a_post_comes_to_its_end(
    signed_in: bool,
    first: SendOutcome,
    refreshed: bool,
    second: SendOutcome,
    stages: (PostStage, PostStage, PostStage, PostStage),
)
    requires
        stages.0 == after_account(PostStage::Token, signed_in),
        stages.1 == if stages.0 is FirstReply {
            after_reply(stages.0, first)
        } else {
            stages.0
        },
        stages.2 == if stages.1 is Refresh {
            after_account(stages.1, refreshed)
        } else {
            stages.1
        },
        stages.3 == if stages.2 is SecondReply {
            after_reply(stages.2, second)
        } else {
            stages.2
        },
    ensures
        stages.3 == post_end(signed_in, first, refreshed, second),
{
}

/// No event is lost on the way: a post ends with its events accepted, rejected for
/// good, or back in the outbox.
pub proof fn law_events_are_accepted_rejected_or_requeued(
    signed_in: bool,
    first: SendOutcome,
    refreshed: bool,
    second: SendOutcome,
)
    ensures
        post_end(signed_in, first, refreshed, second) is Requeue || post_end(
            signed_in,
            first,
            refreshed,
            second,
        ) is Done,
        post_end(signed_in, first, refreshed, second) is Done <==> signed_in && {
            ||| first is Accepted
            ||| first is SenderFault
            ||| first is AuthFailed && refreshed && (second is Accepted || second is SenderFault)
        },
{
}

/// A play that starts is the track's own, with the attributes that were noted for that
/// track, or those of a full stereo track without loss where none were.
pub proof fn law_a_started_play_is_the_tracks_own(
    pending: Map<u64, StreamMeta>,
    id: u64,
    duration_secs: u32,
    source: Option<(String, String)>,
    now: Moment,
    current: Option<PlaySession>,
)
    requires
        starts(pending, Some(id), duration_secs, source, now, current),
    ensures
        current is Some,
        current->0.requested_product_id == id,
        current->0.duration_secs == duration_secs,
        current->0.started_at_ms == now.wall_ms,
        current->0.last_resumed_at == Some(now.tick_ns),
        current->0.accumulated_ns == 0,
        !current->0.reported,
        pending.contains_key(id) ==> current->0.meta == pending[id],
        !pending.contains_key(id) ==> {
            &&& current->0.meta.quality@ == "LOSSLESS"@
            &&& current->0.meta.audio_mode@ == "STEREO"@
            &&& current->0.meta.presentation@ == "FULL"@
            &&& current->0.meta.actual_product_id is None
        },
        source is None ==> current->0.source is None,
        current->0.source matches Some((kind, container)) ==> {
            &&& source is Some
            &&& container == (source->0).1
            &&& text::ascii_lower(kind.tidal_name()) == text::ascii_lower((source->0).0@)
        },
{
    if source is Some {
        lemma_source_names((source->0).0@);
    }
}

/// The kind that a name stands for has that name, in any letter case.
proof fn lemma_source_names(name: Seq<char>)
    ensures
        SourceType::of_sone(name) matches Some(kind) ==> text::ascii_lower(kind.tidal_name())
            == text::ascii_lower(name),
{
    reveal_strlit("ALBUM");
    reveal_strlit("PLAYLIST");
    reveal_strlit("ARTIST");
    reveal_strlit("MIX");
    reveal_strlit("album");
    reveal_strlit("playlist");
    reveal_strlit("artist");
    reveal_strlit("mix");
    assert(text::ascii_lower("ALBUM"@) =~= "album"@);
    assert(text::ascii_lower("PLAYLIST"@) =~= "playlist"@);
    assert(text::ascii_lower("ARTIST"@) =~= "artist"@);
    assert(text::ascii_lower("MIX"@) =~= "mix"@);
}

/// A container counts exactly where its kind is an album, a playlist, an artist or a mix, in
/// any letter case.
pub proof fn law_containers_of_four_kinds_count(kind: String, id: String)
    ensures
        source_of(Some((kind, id))) is Some <==> {
            let name = text::ascii_lower(kind@);
            name == "album"@ || name == "playlist"@ || name == "artist"@ || name == "mix"@
        },
        source_of(Some((kind, id))) matches Some((_, container)) ==> container == id,
        source_of(None) is None,
{
}

/// Noting a track touches the attributes of no other, but for one that goes where there are
/// too many, and that one is as old as any.
pub proof fn law_noting_drops_only_the_oldest(
    pending: Map<u64, StreamMeta>,
    track_id: u64,
    meta: StreamMeta,
    after: Map<u64, StreamMeta>,
    gone: u64,
    kept: u64,
)
    requires
        pending.dom().finite(),
        noted(pending, track_id, meta, after),
    ensures
        pending.insert(track_id, meta).len() <= 16 ==> after == pending.insert(track_id, meta),
        after.contains_key(kept) && kept != track_id ==> pending.contains_key(kept) && after[kept]
            == pending[kept],
        pending.contains_key(gone) && gone != track_id && !after.contains_key(gone)
            && after.contains_key(kept) ==> pending[gone].at_ms <= after[kept].at_ms,
        pending.insert(track_id, meta).len() > 16 ==> after.len() + 1 == pending.insert(
            track_id,
            meta,
        ).len(),
{
    let grown = pending.insert(track_id, meta);
    if grown.len() > MAX_PENDING {
        let key = choose|key: u64| is_oldest(grown, key) && after == #[trigger] grown.remove(key);
        assert(grown.dom().finite());
        if after.contains_key(kept) {
            assert(grown.contains_key(kept));
            assert(grown[key].at_ms <= grown[kept].at_ms);
        }
        if pending.contains_key(gone) && gone != track_id && !after.contains_key(gone) {
            assert(gone == key);
        }
    }
}

/// The end of a track marks the play as reported if it counts, and changes nothing else.
pub proof fn law_the_end_marks_the_play_alone(s: PlaySession, tick: u64)
    ensures
        stepped(s, Step::Finish, tick).reported <==> s.reported || s.elapsed_ns(tick)
            >= 30_000_000_000,
        (PlaySession { reported: s.reported, ..stepped(s, Step::Finish, tick) }) == s,
{
}

/// A request carries every body of its batch, in order and unchanged, each with headers that
/// hold the token and the client of the account that it is posted for.
pub proof fn law_a_request_carries_its_batch(
    form: Seq<(Seq<char>, Seq<char>)>,
    bodies: Seq<Seq<char>>,
    account: Account,
    now_ms: i64,
    i: int,
)
    requires
        posts(form, bodies, account, now_ms),
        0 <= i < bodies.len(),
    ensures
        form.len() == 8 * bodies.len(),
        form[8 * i + 1].1 == bodies[i],
        form[8 * i + 6].1 == crate::json::object_text(
            event::header_members(account.client_id@, account.access_token@, now_ms),
        ),
        event::header_members(account.client_id@, account.access_token@, now_ms).contains(
            ("authorization"@, crate::json::string_text(account.access_token@)),
        ),
        event::header_members(account.client_id@, account.access_token@, now_ms).contains(
            ("client-id"@, crate::json::string_text(account.client_id@)),
        ),
        event::names_field(form[8 * i + 1].0, (i + 1) as nat, "MessageBody"@),
        random::is_uuid_v4(form[8 * i].1),
{
    let headers = crate::json::object_text(
        event::header_members(account.client_id@, account.access_token@, now_ms),
    );
    let ids = choose|ids: Seq<Seq<char>>|
        {
            &&& ids.len() == bodies.len()
            &&& forall|i: int| 0 <= i < ids.len() ==> random::is_uuid_v4(#[trigger] ids[i])
            &&& form == #[trigger] event::form_fields(event::with_headers(bodies, headers), ids)
        };
    let events = event::with_headers(bodies, headers);
    event::law_form_carries_events(events, ids, i);
    event::law_every_body_gets_the_headers(bodies, headers, i);
    event::law_the_headers_carry_the_account(account.client_id@, account.access_token@, now_ms);
    let entry = form.subrange(8 * i, 8 * i + 8);
    event::law_an_entry_carries_body_and_headers(
        (i + 1) as nat,
        ids[i],
        events[i].0,
        events[i].1,
    );
    assert(entry[0] == form[8 * i]);
    assert(entry[1] == form[8 * i + 1]);
    assert(entry[6] == form[8 * i + 6]);
    assert(random::is_uuid_v4(ids[i]));
}

/// A round goes on by what was taken: as much less is left, and never less than nothing.
pub proof fn law_a_round_goes_down_by_what_was_taken(remaining: nat, taken: nat)
    ensures
        taken <= remaining ==> left_after(remaining, taken) + taken == remaining,
        taken > remaining ==> left_after(remaining, taken) == 0,
{
}

} // verus!
