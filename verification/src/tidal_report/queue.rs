//! Outbox for play-report events that failed to send (offline, transient errors).
//! It holds only the frozen MessageBody: the Headers attribute carries the access
//! token and is rebuilt at send time.

use crate::json::{self, Leaf};
use crate::lists;
use crate::text;
use vstd::prelude::*;
use vstd::string::*;
use vstd::utf8::*;

verus! {

/// How many entries the outbox keeps.
pub const MAX_ENTRIES: usize = 500;

/// How often an event is posted at most.
pub const MAX_ATTEMPTS: u32 = 10;

/// How long an entry is worth posting, in seconds: fourteen days.
pub const MAX_AGE_SECS: i64 = 1_209_600;

/// An event that waits to be posted again.
#[derive(Debug)]
pub struct QueueEntry {
    pub body: String,
    pub attempts: u32,
    pub queued_at: i64,
}

/// The model of `QueueEntry`.
pub ghost struct EntryView {
    pub body: Seq<char>,
    pub attempts: u32,
    pub queued_at: i64,
}

impl View for QueueEntry {
    type V = EntryView;

    open spec fn view(&self) -> EntryView {
        EntryView { body: self.body@, attempts: self.attempts, queued_at: self.queued_at }
    }
}

/// The entries, in the order in which they were queued.
pub struct ReportQueue {
    entries: Vec<QueueEntry>,
}

impl View for ReportQueue {
    type V = Seq<EntryView>;

    closed spec fn view(&self) -> Seq<EntryView> {
        entries_view(self.entries@)
    }
}

/// The models of a list of entries.
pub open spec fn entries_view(entries: Seq<QueueEntry>) -> Seq<EntryView> {
    entries.map_values(|e: QueueEntry| e@)
}

/// The models of a batch: bodies with their attempt counts.
pub open spec fn items_view(items: Seq<(String, u32)>) -> Seq<(Seq<char>, u32)> {
    items.map_values(|item: (String, u32)| (item.0@, item.1))
}

// ---------------------------------------------------------------------------
// Taking and requeueing, on models
// ---------------------------------------------------------------------------

/// Neither cap is exceeded: too many attempts, or too old at `now`.
pub open spec fn is_live(now: i64) -> spec_fn(EntryView) -> bool {
    |e: EntryView| e.attempts < MAX_ATTEMPTS && now - e.queued_at <= MAX_AGE_SECS
}

/// The entries that are still worth posting, in order.
pub open spec fn live(entries: Seq<EntryView>, now: i64) -> Seq<EntryView> {
    entries.filter(is_live(now))
}

/// The smaller of two numbers.
pub open spec fn smaller(a: int, b: int) -> int {
    if a <= b {
        a
    } else {
        b
    }
}

/// The batch that is taken: the first live entries, `max` at most.
pub open spec fn batch(entries: Seq<EntryView>, max: nat, now: i64) -> Seq<(Seq<char>, u32)> {
    let kept = live(entries, now);
    kept.take(smaller(max as int, kept.len() as int)).map_values(
        |e: EntryView| (e.body, e.attempts),
    )
}

/// What stays when a batch is taken: the live entries after it.
pub open spec fn after_batch(entries: Seq<EntryView>, max: nat, now: i64) -> Seq<EntryView> {
    let kept = live(entries, now);
    kept.skip(smaller(max as int, kept.len() as int))
}

/// An item that failed once more and may be posted again.
pub open spec fn has_attempts_left() -> spec_fn((Seq<char>, u32)) -> bool {
    |item: (Seq<char>, u32)| item.1 + 1 < MAX_ATTEMPTS
}

/// The entry of an item that failed once more.
pub open spec fn retry_entry(item: (Seq<char>, u32), now: i64) -> EntryView {
    EntryView { body: item.0, attempts: (item.1 + 1) as u32, queued_at: now }
}

/// The entries of the failed items that may be posted again, in order.
pub open spec fn retries(items: Seq<(Seq<char>, u32)>, now: i64) -> Seq<EntryView> {
    items.filter(has_attempts_left()).map_values(
        |item: (Seq<char>, u32)| retry_entry(item, now),
    )
}

/// The newest entries, as many as the outbox keeps.
pub open spec fn newest(entries: Seq<EntryView>) -> Seq<EntryView> {
    if entries.len() > MAX_ENTRIES {
        entries.skip(entries.len() - MAX_ENTRIES)
    } else {
        entries
    }
}

/// The outbox once the failed items are back in it.
pub open spec fn after_requeue(
    entries: Seq<EntryView>,
    items: Seq<(Seq<char>, u32)>,
    now: i64,
) -> Seq<EntryView> {
    if items.len() == 0 {
        entries
    } else {
        newest(entries + retries(items, now))
    }
}

// ---------------------------------------------------------------------------
// The outbox
// ---------------------------------------------------------------------------

impl ReportQueue {
    /// The outbox of these entries, and an empty one where there are none.
    pub fn with_entries(stored: Option<Vec<QueueEntry>>) -> (queue: Self)
        ensures
            queue@ == or_empty(entries_view_if(stored)),
    {
        match stored {
            Some(entries) => ReportQueue { entries },
            None => {
                let queue = ReportQueue { entries: Vec::new() };
                assert(queue@ =~= seq![]);
                queue
            },
        }
    }

    /// The entries, for storing them.
    pub fn entries(&self) -> (entries: &Vec<QueueEntry>)
        ensures
            entries_view(entries@) == self@,
    {
        &self.entries
    }

    /// How many entries wait.
    pub fn len(&self) -> (n: usize)
        ensures
            n == self@.len(),
    {
        self.entries.len()
    }

    /// Remove and return up to `max` non-expired entries (with attempt counts),
    /// dropping any that exceeded the age/attempt caps. The outbox is to be stored
    /// again where the batch is not empty.
    pub fn take_batch(&mut self, max: usize, now: i64) -> (taken: Vec<(String, u32)>)
        ensures
            items_view(taken@) == batch(old(self)@, max as nat, now),
            final(self)@ == after_batch(old(self)@, max as nat, now),
    {
        let ghost before = self@;
        let mut entries: Vec<QueueEntry> = Vec::new();
        std::mem::swap(&mut entries, &mut self.entries);
        let mut taken: Vec<(String, u32)> = Vec::new();
        let mut rest: Vec<QueueEntry> = Vec::new();
        let ghost mut kept: Seq<EntryView> = seq![];
        for entry in it: entries
            invariant
                entries_view(it.seq()) == before,
                kept == live(before.take(it.index() as int), now),
                items_view(taken@) == kept.take(smaller(max as int, kept.len() as int)).map_values(
                    |e: EntryView| (e.body, e.attempts),
                ),
                entries_view(rest@) == kept.skip(smaller(max as int, kept.len() as int)),
        {
            let ghost i = it.index() as int;
            let ghost old_kept = kept;
            let ghost old_rest = entries_view(rest@);
            let ghost old_taken = items_view(taken@);
            proof {
                reveal(Seq::filter);
                assert(before.take(i + 1).drop_last() =~= before.take(i));
                assert(before.take(i + 1).last() == entry@);
            }
            let age: i128 = now as i128 - entry.queued_at as i128;
            if entry.attempts < MAX_ATTEMPTS && age <= MAX_AGE_SECS as i128 {
                proof {
                    kept = kept.push(entry@);
                }
                let ghost view = entry@;
                if taken.len() < max {
                    taken.push((entry.body, entry.attempts));
                    assert(items_view(taken@) =~= old_taken.push((view.body, view.attempts)));
                } else {
                    rest.push(entry);
                    assert(entries_view(rest@) =~= old_rest.push(view));
                }
            }
            assert(kept == live(before.take(i + 1), now));
        }
        assert(before.take(before.len() as int) =~= before);
        self.entries = rest;
        taken
    }

    /// Re-add failed entries with incremented attempt counts. Returns whether the
    /// outbox is to be stored again.
    pub fn requeue(&mut self, items: Vec<(String, u32)>, now: i64) -> (changed: bool)
        ensures
            final(self)@ == after_requeue(old(self)@, items_view(items@), now),
            changed == (items@.len() > 0),
    {
        if items.len() == 0 {
            return false;
        }
        let ghost before = self@;
        let ghost all = items_view(items@);
        assert(retries(all.take(0), now) =~= seq![]) by {
            reveal(Seq::filter);
        }
        assert(self@ =~= before + retries(all.take(0), now));
        for item in it: items
            invariant
                items_view(it.seq()) == all,
                self@ == before + retries(all.take(it.index() as int), now),
        {
            let ghost i = it.index() as int;
            let ghost current = self@;
            let ghost view = (item.0@, item.1);
            proof {
                reveal(Seq::filter);
                assert(all.take(i + 1).drop_last() =~= all.take(i));
                assert(all.take(i + 1).last() == view);
            }
            let (body, attempts) = item;
            if attempts < MAX_ATTEMPTS - 1 {
                self.entries.push(QueueEntry { body, attempts: attempts + 1, queued_at: now });
                assert(self@ =~= current.push(retry_entry(view, now)));
                assert(retries(all.take(i + 1), now) =~= retries(all.take(i), now).push(
                    retry_entry(view, now),
                ));
            }
            assert(self@ =~= before + retries(all.take(i + 1), now));
        }
        assert(all.take(all.len() as int) =~= all);
        if self.entries.len() > MAX_ENTRIES {
            let excess: usize = self.entries.len() - MAX_ENTRIES;
            let ghost full = self@;
            let tail = self.entries.split_off(excess);
            self.entries = tail;
            assert(self@ =~= full.skip(excess as int));
        }
        true
    }

    /// Drop every entry. The outbox is to be stored again.
    pub fn clear(&mut self)
        ensures
            final(self)@ == Seq::<EntryView>::empty(),
    {
        self.entries.clear();
        assert(self@ =~= Seq::<EntryView>::empty());
    }
}

// ---------------------------------------------------------------------------
// The file
// ---------------------------------------------------------------------------

/// An entry as it is written: an object of three members.
pub open spec fn entry_row(entry: EntryView) -> Seq<(Seq<char>, json::Scalar)> {
    seq![
        ("body"@, json::Scalar::Text(entry.body)),
        ("attempts"@, json::Scalar::Integer(entry.attempts as int)),
        ("queued_at"@, json::Scalar::Integer(entry.queued_at as int)),
    ]
}

/// The entries as they are written.
pub open spec fn entry_rows(entries: Seq<EntryView>) -> Seq<Seq<(Seq<char>, json::Scalar)>> {
    entries.map_values(|e: EntryView| entry_row(e))
}

/// The text of the file that holds these entries: a JSON array.
pub open spec fn outbox_text(entries: Seq<EntryView>) -> Seq<char> {
    json::rows_text(entry_rows(entries))
}

/// The entry that the members of an object make, if all three of its parts are there.
pub open spec fn entry_in(members: Seq<(Seq<char>, json::LeafView)>) -> Option<EntryView> {
    match (
        json::member(members, "body"@),
        json::member(members, "attempts"@),
        json::member(members, "queued_at"@),
    ) {
        (
            Some(json::LeafView::Text(body)),
            Some(json::LeafView::Number { unsigned: Some(attempts), .. }),
            Some(json::LeafView::Number { signed: Some(queued_at), .. }),
        ) => if attempts <= u32::MAX {
            Some(EntryView { body, attempts: attempts as u32, queued_at })
        } else {
            None
        },
        _ => None,
    }
}

/// The entries that the objects of a list make; none of them where one makes none.
pub open spec fn entries_of(items: Seq<Seq<(Seq<char>, json::LeafView)>>) -> Option<
    Seq<EntryView>,
> {
    if forall|i: int| 0 <= i < items.len() ==> entry_in(#[trigger] items[i]) is Some {
        Some(items.map_values(|members: Seq<(Seq<char>, json::LeafView)>| entry_in(members)->0))
    } else {
        None
    }
}

/// The entries that a list of objects makes, where there is a list.
pub open spec fn entries_if(
    items: Option<Seq<Seq<(Seq<char>, json::LeafView)>>>,
) -> Option<Seq<EntryView>> {
    match items {
        Some(items) => entries_of(items),
        None => None,
    }
}

/// The entries of a file that an outbox was stored in: those whose text it holds, byte
/// for byte. `None` for any other file.
pub open spec fn own_entries(bytes: Seq<u8>) -> Option<Seq<EntryView>> {
    match entries_if(json::list_items(bytes)) {
        Some(entries) => if bytes == encode_utf8(outbox_text(entries)) {
            Some(entries)
        } else {
            None
        },
        None => None,
    }
}

/// A decrypted file: its bytes, and the entries that the caller's JSON reader took it
/// for, if it took it for a list of entries.
#[derive(Debug)]
pub struct OutboxFile {
    pub bytes: Vec<u8>,
    pub entries: Option<Vec<QueueEntry>>,
}

/// The model of [`OutboxFile`].
pub ghost struct FileView {
    pub bytes: Seq<u8>,
    pub entries: Option<Seq<EntryView>>,
}

impl View for OutboxFile {
    type V = FileView;

    open spec fn view(&self) -> FileView {
        FileView { bytes: self.bytes@, entries: entries_view_if(self.entries) }
    }
}

/// The model of a file, where there is one.
pub open spec fn file_view(file: Option<OutboxFile>) -> Option<FileView> {
    match file {
        Some(file) => Some(file@),
        None => None,
    }
}

/// The entries of a file: one that an outbox was stored in holds what was stored; any
/// other holds what the caller's JSON reader took it for. None where there is no file, or
/// it is not a list of entries.
pub open spec fn outbox_in(file: Option<FileView>) -> Option<Seq<EntryView>> {
    match file {
        Some(file) => match own_entries(file.bytes) {
            Some(entries) => Some(entries),
            None => file.entries,
        },
        None => None,
    }
}

/// The models of a list of entries, where there is one.
pub open spec fn entries_view_if(entries: Option<Vec<QueueEntry>>) -> Option<Seq<EntryView>> {
    match entries {
        Some(entries) => Some(entries_view(entries@)),
        None => None,
    }
}

/// The entries that were read, or none.
pub open spec fn or_empty(read: Option<Seq<EntryView>>) -> Seq<EntryView> {
    match read {
        Some(entries) => entries,
        None => Seq::empty(),
    }
}

/// Where the file holds what was written for these entries, they come out of it.
pub open spec fn reads_outbox_back(file: Option<FileView>, read: Seq<EntryView>) -> bool {
    forall|entries: Seq<EntryView>|
        (file matches Some(file) && file.bytes == encode_utf8(#[trigger] outbox_text(entries)))
            ==> read == entries
}

/// The keys of an entry differ, and its numbers fit.
proof fn lemma_entry_row(entry: EntryView)
    ensures
        json::is_row(entry_row(entry)),
{
    reveal_strlit("body");
    reveal_strlit("attempts");
    reveal_strlit("queued_at");
    assert("body"@.len() == 4 && "attempts"@.len() == 8 && "queued_at"@.len() == 9);
    let row = entry_row(entry);
    assert(row[0].0 == "body"@ && row[1].0 == "attempts"@ && row[2].0 == "queued_at"@);
}

/// An object that holds what was written for an entry makes that entry.
proof fn lemma_entry_reads_back(members: Seq<(Seq<char>, json::LeafView)>, entry: EntryView)
    requires
        json::holds_row(members, entry_row(entry)),
    ensures
        entry_in(members) == Some(entry),
{
    let row = entry_row(entry);
    assert(row[0].0 == "body"@ && json::reads_as(json::member(members, row[0].0)->0, row[0].1));
    assert(row[1].0 == "attempts"@ && json::reads_as(json::member(members, row[1].0)->0, row[1].1));
    assert(row[2].0 == "queued_at"@ && json::reads_as(
        json::member(members, row[2].0)->0,
        row[2].1,
    ));
}

/// The entry that the members of an object make.
fn entry_from(members: &Vec<(String, Leaf)>) -> (entry: Option<QueueEntry>)
    ensures
        match entry {
            Some(entry) => entry_in(json::leaves_of(members@)) == Some(entry@),
            None => entry_in(json::leaves_of(members@)) is None,
        },
{
    let body = match json::find_member(members, "body") {
        Some(Leaf::Text(body)) => body.clone(),
        _ => {
            return None;
        },
    };
    let attempts: u64 = match json::find_member(members, "attempts") {
        Some(Leaf::Number { unsigned: Some(n), .. }) => *n,
        _ => {
            return None;
        },
    };
    let queued_at: i64 = match json::find_member(members, "queued_at") {
        Some(Leaf::Number { signed: Some(n), .. }) => *n,
        _ => {
            return None;
        },
    };
    if attempts > u32::MAX as u64 {
        return None;
    }
    Some(QueueEntry { body, attempts: attempts as u32, queued_at })
}

/// The entries that the objects of a list make; none of them where one makes none.
pub fn entries_from(items: &Vec<Vec<(String, Leaf)>>) -> (entries: Option<Vec<QueueEntry>>)
    ensures
        entries_view_if(entries) == entries_of(json::items_of(items@)),
{
    let ghost all = json::items_of(items@);
    let mut entries: Vec<QueueEntry> = Vec::new();
    let mut i: usize = 0;
    while i < items.len()
        invariant
            i <= items@.len(),
            all == json::items_of(items@),
            entries@.len() == i,
            forall|j: int|
                0 <= j < i ==> entry_in(#[trigger] all[j]) == Some(entries@[j]@),
        decreases items@.len() - i,
    {
        match entry_from(&items[i]) {
            Some(entry) => entries.push(entry),
            None => {
                assert(entry_in(all[i as int]) is None);
                return None;
            },
        }
        i += 1;
    }
    assert(entries_view(entries@) =~= all.map_values(
        |members: Seq<(Seq<char>, json::LeafView)>| entry_in(members)->0,
    ));
    Some(entries)
}

/// Whether two lists hold the same bytes.
fn same_bytes(a: &Vec<u8>, b: &Vec<u8>) -> (same: bool)
    ensures
        same == (a@ == b@),
{
    if a.len() != b.len() {
        return false;
    }
    let mut i: usize = 0;
    while i < a.len()
        invariant
            i <= a@.len(),
            a@.len() == b@.len(),
            forall|j: int| 0 <= j < i ==> a@[j] == b@[j],
        decreases a@.len() - i,
    {
        if a[i] != b[i] {
            return false;
        }
        i += 1;
    }
    assert(a@ =~= b@);
    true
}

/// The outbox that was stored in a file; `None` for any other file.
fn read_own(bytes: &Vec<u8>) -> (queue: Option<ReportQueue>)
    ensures
        match queue {
            Some(queue) => own_entries(bytes@) == Some(queue@),
            None => own_entries(bytes@) is None,
        },
        forall|entries: Seq<EntryView>|
            bytes@ == encode_utf8(#[trigger] outbox_text(entries)) ==> own_entries(bytes@) == Some(
                entries,
            ),
{
    let items = json::read_list(bytes.as_slice());
    let ghost list = json::list_of(items);
    assert forall|entries: Seq<EntryView>|
        bytes@ == encode_utf8(#[trigger] outbox_text(entries)) implies entries_if(list) == Some(
        entries,
    ) by {
        let rows = entry_rows(entries);
        assert forall|i: int| 0 <= i < rows.len() implies json::is_row(#[trigger] rows[i]) by {
            lemma_entry_row(entries[i]);
        }
        assert(json::rows_text(rows) == outbox_text(entries));
        let read = list->0;
        assert(json::holds_rows(read, rows));
        assert forall|i: int| 0 <= i < read.len() implies entry_in(#[trigger] read[i]) == Some(
            entries[i],
        ) by {
            assert(rows[i] == entry_row(entries[i]));
            lemma_entry_reads_back(read[i], entries[i]);
        }
        assert(entries_of(read)->0 =~= entries);
    }
    let items = match items {
        Some(items) => items,
        None => {
            return None;
        },
    };
    match entries_from(&items) {
        Some(entries) => {
            let queue = ReportQueue::with_entries(Some(entries));
            if same_bytes(&queue.stored(), bytes) {
                Some(queue)
            } else {
                None
            }
        },
        None => None,
    }
}

impl ReportQueue {
    /// The outbox of a decrypted file, and an empty one where there is none or it is not a
    /// list of entries. What was stored is there again, in the same order.
    pub fn new(file: Option<OutboxFile>) -> (queue: Self)
        ensures
            queue@ == or_empty(outbox_in(file_view(file))),
            reads_outbox_back(file_view(file), queue@),
    {
        match file {
            Some(file) => match read_own(&file.bytes) {
                Some(queue) => queue,
                None => ReportQueue::with_entries(file.entries),
            },
            None => ReportQueue::with_entries(None),
        }
    }

    /// The bytes of the file that holds the outbox, before they are encrypted.
    pub fn stored(&self) -> (plain: Vec<u8>)
        ensures
            plain@ == encode_utf8(outbox_text(self@)),
    {
        let ghost wanted = entry_rows(self@).map_values(
            |row: Seq<(Seq<char>, json::Scalar)>| json::object_text(json::row_members(row)),
        );
        let mut items: Vec<String> = Vec::new();
        let mut i: usize = 0;
        while i < self.entries.len()
            invariant
                i <= self.entries@.len(),
                wanted == entry_rows(self@).map_values(
                    |row: Seq<(Seq<char>, json::Scalar)>| json::object_text(json::row_members(row)),
                ),
                text::texts(items@) == wanted.take(i as int),
            decreases self.entries@.len() - i,
        {
            let ghost before = text::texts(items@);
            let item = entry_text(&self.entries[i]);
            assert(wanted[i as int] == item@);
            items.push(item);
            assert(text::texts(items@) =~= before.push(wanted[i as int]));
            assert(before.push(wanted[i as int]) =~= wanted.take(i + 1));
            i += 1;
        }
        assert(wanted.take(i as int) =~= wanted);
        json::write_array(&items).as_str().as_bytes_vec()
    }
}

/// The JSON text of an entry.
fn entry_text(entry: &QueueEntry) -> (json: String)
    ensures
        json@ == json::object_text(json::row_members(entry_row(entry@))),
{
    let mut members: Vec<(&'static str, String)> = Vec::new();
    members.push(("body", json::write_string(entry.body.as_str())));
    members.push(("attempts", text::decimal_text(entry.attempts as u64)));
    members.push(("queued_at", text::signed_decimal_text(entry.queued_at)));
    assert(json::written_members(members@) =~= json::row_members(entry_row(entry@)));
    json::write_object(&members)
}

// ---------------------------------------------------------------------------
// Laws
// ---------------------------------------------------------------------------

/// Taking a batch neither loses, repeats nor reorders a live entry: the batch and
/// what stays after it are, one after the other, the live entries.
pub proof fn law_batch_and_rest_are_the_live_entries(
    entries: Seq<EntryView>,
    max: nat,
    now: i64,
)
    ensures
        batch(entries, max, now) + after_batch(entries, max, now).map_values(
            |e: EntryView| (e.body, e.attempts),
        ) == live(entries, now).map_values(|e: EntryView| (e.body, e.attempts)),
        batch(entries, max, now).len() <= max,
{
    assert(batch(entries, max, now) + after_batch(entries, max, now).map_values(
        |e: EntryView| (e.body, e.attempts),
    ) =~= live(entries, now).map_values(|e: EntryView| (e.body, e.attempts)));
}

/// Nothing that was posted too often or is too old leaves the outbox in a batch,
/// nor stays in it when one is taken.
pub proof fn law_expired_entries_are_dropped(entries: Seq<EntryView>, max: nat, now: i64)
    ensures
        forall|i: int|
            0 <= i < live(entries, now).len() ==> {
                &&& (#[trigger] live(entries, now)[i]).attempts < MAX_ATTEMPTS
                &&& now - live(entries, now)[i].queued_at <= MAX_AGE_SECS
                &&& entries.contains(live(entries, now)[i])
            },
        after_batch(entries, max, now).len() <= live(entries, now).len(),
        forall|i: int|
            0 <= i < after_batch(entries, max, now).len() ==> live(entries, now).contains(
                #[trigger] after_batch(entries, max, now)[i],
            ),
{
    broadcast use vstd::seq_lib::group_filter_ensures;

    let kept = live(entries, now);
    assert forall|i: int| 0 <= i < kept.len() implies is_live(now)(#[trigger] kept[i])
        && entries.contains(kept[i]) by {
        entries.lemma_filter_contains_rev(is_live(now), kept[i]);
    }
    let n = smaller(max as int, kept.len() as int);
    assert forall|i: int| 0 <= i < after_batch(entries, max, now).len() implies kept.contains(
        #[trigger] after_batch(entries, max, now)[i],
    ) by {
        assert(after_batch(entries, max, now)[i] == kept[n + i]);
    }
}

/// The outbox never grows past its cap by a requeue.
pub proof fn law_requeue_is_bounded(
    entries: Seq<EntryView>,
    items: Seq<(Seq<char>, u32)>,
    now: i64,
)
    requires
        items.len() > 0,
    ensures
        after_requeue(entries, items, now).len() <= MAX_ENTRIES,
{
}

/// What was requeued comes back, in order, with its attempt counts incremented:
/// items with attempts left, no more than the outbox holds, put into an empty
/// outbox at `now` and taken out again before they are too old.
pub proof fn law_requeued_items_come_back(
    items: Seq<(Seq<char>, u32)>,
    now: i64,
    later: i64,
    max: nat,
)
    requires
        items.len() <= MAX_ENTRIES,
        items.len() <= max,
        forall|i: int| 0 <= i < items.len() ==> (#[trigger] items[i]).1 + 1 < MAX_ATTEMPTS,
        later - now <= MAX_AGE_SECS,
    ensures
        batch(after_requeue(seq![], items, now), max, later) == items.map_values(
            |item: (Seq<char>, u32)| (item.0, (item.1 + 1) as u32),
        ),
        after_batch(after_requeue(seq![], items, now), max, later).len() == 0,
{
    lists::lemma_filter_all(items, has_attempts_left());
    let queued = items.map_values(|item: (Seq<char>, u32)| retry_entry(item, now));
    assert(after_requeue(seq![], items, now) =~= queued);
    assert forall|i: int| 0 <= i < queued.len() implies is_live(later)(#[trigger] queued[i]) by {
        assert(queued[i] == retry_entry(items[i], now));
    }
    lists::lemma_filter_all(queued, is_live(later));
    assert(batch(queued, max, later) =~= items.map_values(
        |item: (Seq<char>, u32)| (item.0, (item.1 + 1) as u32),
    ));
}

/// The attempt count that an item has after it failed `times` times, if it is
/// still in the outbox then.
pub open spec fn attempts_after(first: u32, times: nat) -> Option<u32>
    decreases times,
{
    if times == 0 {
        Some(first)
    } else {
        match attempts_after(first, (times - 1) as nat) {
            Some(n) if n + 1 < MAX_ATTEMPTS => Some((n + 1) as u32),
            _ => None,
        }
    }
}

/// A new event is posted ten times at most: it is requeued after each of its first
/// nine failures and dropped after the tenth.
pub proof fn law_an_event_is_tried_ten_times_at_most(times: nat)
    ensures
        times < MAX_ATTEMPTS ==> attempts_after(0, times) == Some(times as u32),
        times >= MAX_ATTEMPTS ==> attempts_after(0, times) is None,
    decreases times,
{
    if times > 0 {
        law_an_event_is_tried_ten_times_at_most((times - 1) as nat);
    }
}

/// `attempts_after` follows what a requeue does to an item: where it is `Some`, one
/// more failure puts the item back with one more attempt, or drops it.
pub proof fn law_requeue_counts_attempts(body: Seq<char>, first: u32, times: nat, now: i64)
    requires
        attempts_after(first, times) is Some,
    ensures
        retries(seq![(body, attempts_after(first, times)->0)], now) == match attempts_after(
            first,
            times + 1,
        ) {
            Some(n) => seq![EntryView { body, attempts: n, queued_at: now }],
            None => seq![],
        },
{
    reveal(Seq::filter);
    let item = (body, attempts_after(first, times)->0);
    assert(seq![item].drop_last() =~= seq![]);
    assert(seq![item].drop_last().filter(has_attempts_left()) =~= seq![]);
    assert(seq![item].last() == item);
    assert(seq![item].filter(has_attempts_left()) =~= if has_attempts_left()(item) {
        seq![item]
    } else {
        seq![]
    });
    assert(retries(seq![item], now) =~= match attempts_after(first, times + 1) {
        Some(n) => seq![EntryView { body, attempts: n, queued_at: now }],
        None => seq![],
    });
}

/// An entry is worth posting while it was tried fewer than ten times and is no older than
/// fourteen days, and every such entry is kept.
pub proof fn law_live_entries_are_kept(entries: Seq<EntryView>, now: i64, i: int)
    requires
        0 <= i < entries.len(),
    ensures
        live(entries, now).contains(entries[i]) <==> entries[i].attempts < 10 && now
            - entries[i].queued_at <= 14 * 86400,
{
    broadcast use vstd::seq_lib::group_filter_ensures;

    let kept = live(entries, now);
    if kept.contains(entries[i]) {
        let k = choose|k: int| 0 <= k < kept.len() && kept[k] == entries[i];
        assert(is_live(now)(entries.filter(is_live(now))[k]));
    }
    if entries[i].attempts < 10 && now - entries[i].queued_at <= 14 * 86400 {
        assert(is_live(now)(entries[i]));
        entries.lemma_filter_contains(is_live(now), i);
    }
}

/// A batch is the front of the live entries, as many as may be taken.
pub proof fn law_a_batch_is_the_front(entries: Seq<EntryView>, max: nat, now: i64, i: int)
    requires
        0 <= i < batch(entries, max, now).len(),
    ensures
        batch(entries, max, now)[i].0 == live(entries, now)[i].body,
        batch(entries, max, now)[i].1 == live(entries, now)[i].attempts,
        batch(entries, max, now).len() == max || after_batch(entries, max, now).len() == 0,
{
}

/// What failed is put back behind the rest as it was, with one more attempt and the time
/// at which it failed.
pub proof fn law_a_retry_keeps_its_body(item: (Seq<char>, u32), now: i64)
    requires
        item.1 < u32::MAX,
    ensures
        retry_entry(item, now).body == item.0,
        retry_entry(item, now).attempts == item.1 + 1,
        retry_entry(item, now).queued_at == now,
        has_attempts_left()(item) <==> item.1 + 1 < 10,
{
}

/// The outbox keeps its newest 500 entries, in order: all of them where there are no more.
pub proof fn law_the_newest_stay(entries: Seq<EntryView>)
    ensures
        entries.len() <= 500 ==> newest(entries) == entries,
        entries.len() > 500 ==> newest(entries).len() == 500,
        forall|i: int|
            0 <= i < newest(entries).len() ==> #[trigger] newest(entries)[i] == entries[entries.len()
                - newest(entries).len() + i],
{
}

/// A requeue puts what may be tried again behind what waits already, in order.
pub proof fn law_a_requeue_goes_to_the_end(
    entries: Seq<EntryView>,
    items: Seq<(Seq<char>, u32)>,
    now: i64,
)
    requires
        entries.len() + items.len() <= 500,
        forall|i: int| 0 <= i < items.len() ==> (#[trigger] items[i]).1 < 9,
    ensures
        after_requeue(entries, items, now).len() == entries.len() + items.len(),
        forall|i: int|
            0 <= i < entries.len() ==> #[trigger] after_requeue(entries, items, now)[i]
                == entries[i],
        forall|i: int|
            0 <= i < items.len() ==> {
                let entry = #[trigger] after_requeue(entries, items, now)[entries.len() + i];
                &&& entry.body == items[i].0
                &&& entry.attempts == items[i].1 + 1
                &&& entry.queued_at == now
            },
{
    lists::lemma_filter_all(items, has_attempts_left());
    assert(retries(items, now).len() == items.len());
    assert forall|i: int| 0 <= i < items.len() implies {
        let entry = #[trigger] after_requeue(entries, items, now)[entries.len() + i];
        &&& entry.body == items[i].0
        &&& entry.attempts == items[i].1 + 1
        &&& entry.queued_at == now
    } by {
        assert(retries(items, now)[i] == retry_entry(items[i], now));
        assert((entries + retries(items, now))[entries.len() + i] == retries(items, now)[i]);
    }
}

} // verus!
