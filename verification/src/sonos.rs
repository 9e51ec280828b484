//! What is known of the speakers, and of the queue that one of them plays.

use crate::text;
use std::collections::VecDeque;
use vstd::prelude::*;

verus! {

/// Speakers that play together, under one of them (the coordinator).
#[derive(Debug)]
pub struct SonosGroup {
    pub coordinator_uuid: String,
    pub coordinator_ip: String,
    pub name: String,
}

/// A group, and the serial of the TIDAL account that is linked to it.
#[derive(Debug)]
pub struct SonosGroupInfo {
    pub group: SonosGroup,
    pub tidal_serial: Option<String>,
}

/// The group that is cast to.
#[derive(Debug)]
pub struct SessionInfo {
    pub coordinator_ip: String,
    pub coordinator_uuid: String,
    pub room_name: String,
}

impl Clone for SessionInfo {
    fn clone(&self) -> (copy: Self)
        ensures
            copy == *self,
    {
        SessionInfo {
            coordinator_ip: self.coordinator_ip.clone(),
            coordinator_uuid: self.coordinator_uuid.clone(),
            room_name: self.room_name.clone(),
        }
    }
}

/// The session that casts to this group.
pub open spec fn session_of(group: SonosGroupInfo) -> SessionInfo {
    SessionInfo {
        coordinator_ip: group.group.coordinator_ip,
        coordinator_uuid: group.group.coordinator_uuid,
        room_name: group.group.name,
    }
}

/// A track of the up-next list.
#[derive(Debug)]
pub struct MirrorEntry {
    pub track_id: u64,
    pub qid: String,
}

/// The model of [`MirrorEntry`].
pub ghost struct EntryView {
    pub track_id: u64,
    pub qid: Seq<char>,
}

impl View for MirrorEntry {
    type V = EntryView;

    open spec fn view(&self) -> EntryView {
        EntryView { track_id: self.track_id, qid: self.qid@ }
    }
}

/// The tracks of a list.
pub open spec fn tail_of(entries: Seq<MirrorEntry>) -> Seq<EntryView> {
    entries.map_values(|e: MirrorEntry| e@)
}

/// What is known of the tail of the speaker's queue.
#[derive(Debug)]
pub struct Mirror {
    pub entries: VecDeque<MirrorEntry>,
    /// The speaker's queue holds the current track, so that a tail may follow it.
    pub seeded: bool,
}

impl Mirror {
    /// The tracks of the tail.
    pub open spec fn tail(self) -> Seq<EntryView> {
        tail_of(self.entries@)
    }

    /// Nothing is known of a tail.
    pub fn new() -> (mirror: Self)
        ensures
            mirror.tail() == Seq::<EntryView>::empty(),
            !mirror.seeded,
    {
        let mirror = Mirror { entries: VecDeque::new(), seeded: false };
        assert(mirror.tail() =~= Seq::<EntryView>::empty());
        mirror
    }

    /// The tail is gone.
    pub fn clear(&mut self)
        ensures
            final(self).tail() == Seq::<EntryView>::empty(),
            final(self).seeded == old(self).seeded,
    {
        self.entries.clear();
        assert(self.tail() =~= Seq::<EntryView>::empty());
    }

    /// A track landed at the end of the tail.
    pub fn push(&mut self, entry: &MirrorEntry)
        ensures
            final(self).tail() == old(self).tail().push(entry@),
            final(self).seeded == old(self).seeded,
    {
        let ghost before = self.tail();
        self.entries.push_back(MirrorEntry { track_id: entry.track_id, qid: entry.qid.clone() });
        assert(self.tail() =~= before.push(entry@));
    }
}

/// What is known of the speakers.
#[derive(Debug)]
pub struct SonosState {
    pub groups: Vec<SonosGroupInfo>,
    pub session: Option<SessionInfo>,
    pub mirror: Mirror,
}

impl SonosState {
    /// Nothing is known yet.
    pub fn new() -> (state: Self)
        ensures
            state.groups@.len() == 0,
            state.session is None,
            state.mirror.tail() == Seq::<EntryView>::empty(),
            !state.mirror.seeded,
    {
        SonosState { groups: Vec::new(), session: None, mirror: Mirror::new() }
    }
}

// ---------------------------------------------------------------------------
// Bringing the tail up to date
// ---------------------------------------------------------------------------

/// How the speaker's tail is made to match the up-next list.
#[derive(Clone, Copy, Debug, PartialEq, Eq, Structural)]
pub enum SyncPlan {
    /// It matches.
    NoOp,
    /// It lacks what comes after this many tracks.
    Append { skip: usize },
    /// It differs: wipe it and add everything again.
    Rewrite,
}

/// The list goes on where the tail ends.
pub open spec fn extends(desired: Seq<EntryView>, tail: Seq<EntryView>) -> bool {
    tail.len() <= desired.len() && desired.take(tail.len() as int) == tail
}

/// The plan: append when the list extends the tail, otherwise wipe and re-add.
pub open spec fn plan(tail: Seq<EntryView>, desired: Seq<EntryView>) -> SyncPlan {
    if tail == desired {
        SyncPlan::NoOp
    } else if extends(desired, tail) {
        SyncPlan::Append { skip: tail.len() as usize }
    } else {
        SyncPlan::Rewrite
    }
}

/// Plan how the tail is made to match the up-next list: append when it is extended,
/// otherwise wipe and re-add.
pub fn plan_sync(mirrored: &VecDeque<MirrorEntry>, desired: &Vec<MirrorEntry>) -> (sync: SyncPlan)
    ensures
        sync == plan(tail_of(mirrored@), tail_of(desired@)),
{
    let ghost tail = tail_of(mirrored@);
    let ghost list = tail_of(desired@);
    if mirrored.len() > desired.len() {
        return SyncPlan::Rewrite;
    }
    let mut i: usize = 0;
    while i < mirrored.len()
        invariant
            i <= mirrored@.len() <= desired@.len(),
            tail == tail_of(mirrored@),
            list == tail_of(desired@),
            list.take(i as int) == tail.take(i as int),
        decreases mirrored@.len() - i,
    {
        assert(tail[i as int] == mirrored@[i as int]@);
        assert(list[i as int] == desired@[i as int]@);
        if mirrored[i].track_id != desired[i].track_id || !text::same_text(
            mirrored[i].qid.as_str(),
            desired[i].qid.as_str(),
        ) {
            assert(tail[i as int] != list[i as int]);
            assert(list.take(tail.len() as int)[i as int] == list[i as int]);
            return SyncPlan::Rewrite;
        }
        assert(list.take(i + 1) =~= list.take(i as int).push(list[i as int]));
        assert(tail.take(i + 1) =~= tail.take(i as int).push(tail[i as int]));
        i += 1;
    }
    assert(tail.take(i as int) =~= tail);
    if mirrored.len() == desired.len() {
        assert(list.take(i as int) =~= list);
        SyncPlan::NoOp
    } else {
        SyncPlan::Append { skip: mirrored.len() }
    }
}

/// A plan brings the tail to the list: what stays of the tail and what is added make
/// the list.
pub proof fn law_a_plan_reaches_the_list(tail: Seq<EntryView>, desired: Seq<EntryView>)
    requires
        tail.len() <= usize::MAX,
    ensures
        match plan(tail, desired) {
            SyncPlan::NoOp => tail == desired,
            SyncPlan::Append { skip } => tail + desired.skip(skip as int) == desired,
            SyncPlan::Rewrite => Seq::<EntryView>::empty() + desired.skip(0) == desired,
        },
        plan(desired, desired) == SyncPlan::NoOp,
{
    if plan(tail, desired) is Append {
        assert(desired.take(tail.len() as int) + desired.skip(tail.len() as int) =~= desired);
    }
    assert(Seq::<EntryView>::empty() + desired.skip(0) =~= desired);
}

/// A session casts to the coordinator of its group: address, identity and room are those
/// of the group.
pub proof fn law_a_session_is_its_groups(group: SonosGroupInfo)
    ensures
        session_of(group).coordinator_ip@ == group.group.coordinator_ip@,
        session_of(group).coordinator_uuid@ == group.group.coordinator_uuid@,
        session_of(group).room_name@ == group.group.name@,
{
}

/// A tail is left alone where it matches, and only added to where the list goes on where it
/// ends; where any of its tracks is not the list's at that place, it is wiped.
pub proof fn law_a_tail_is_wiped_only_where_it_differs(
    tail: Seq<EntryView>,
    desired: Seq<EntryView>,
    i: int,
)
    requires
        tail.len() <= usize::MAX,
    ensures
        plan(tail, desired) is NoOp <==> tail == desired,
        plan(tail, desired) is Append ==> tail.len() < desired.len() && plan(tail, desired)->skip
            == tail.len(),
        0 <= i < tail.len() && (i >= desired.len() || tail[i] != desired[i]) ==> plan(
            tail,
            desired,
        ) is Rewrite,
        forall|more: Seq<EntryView>|
            more.len() > 0 ==> plan(tail, #[trigger] (tail + more)) == (SyncPlan::Append {
                skip: tail.len() as usize,
            }),
{
    if plan(tail, desired) is Append {
        if tail.len() == desired.len() {
            assert(desired.take(tail.len() as int) =~= desired);
        }
    }
    if 0 <= i < tail.len() && i < desired.len() && tail[i] != desired[i] && tail.len()
        <= desired.len() {
        assert(desired.take(tail.len() as int)[i] == desired[i]);
    }
    assert forall|more: Seq<EntryView>| more.len() > 0 implies plan(tail, #[trigger] (tail + more))
        == (SyncPlan::Append { skip: tail.len() as usize }) by {
        assert((tail + more).take(tail.len() as int) =~= tail);
        assert((tail + more).len() != tail.len());
    }
}

} // verus!
