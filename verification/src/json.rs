//! JSON text: writing values, and reading the members of an object.

use crate::text;
use serde_json::Value;
use serde_json::Value::{Array, Bool, Null, Number, Object};
use vstd::prelude::*;
use vstd::utf8::*;

verus! {

// ---------------------------------------------------------------------------
// The text of a value, in compact form
// ---------------------------------------------------------------------------

/// A character inside a JSON string.
pub open spec fn escaped_char(c: char) -> Seq<char> {
    if c == '"' {
        seq!['\\', '"']
    } else if c == '\\' {
        seq!['\\', '\\']
    } else if c == '\u{8}' {
        seq!['\\', 'b']
    } else if c == '\u{c}' {
        seq!['\\', 'f']
    } else if c == '\n' {
        seq!['\\', 'n']
    } else if c == '\r' {
        seq!['\\', 'r']
    } else if c == '\t' {
        seq!['\\', 't']
    } else if (c as u32) < 32 {
        seq!['\\', 'u', '0', '0'] + text::hex(c as nat, 2)
    } else {
        seq![c]
    }
}

/// The characters of `s` as they stand inside a JSON string.
pub open spec fn escaped(s: Seq<char>) -> Seq<char>
    decreases s.len(),
{
    if s.len() == 0 {
        seq![]
    } else {
        escaped(s.drop_last()) + escaped_char(s.last())
    }
}

/// The JSON string that holds `s`.
pub open spec fn string_text(s: Seq<char>) -> Seq<char> {
    seq!['"'] + escaped(s) + seq!['"']
}

/// The items one after the other, with commas between them.
pub open spec fn joined(items: Seq<Seq<char>>) -> Seq<char>
    decreases items.len(),
{
    if items.len() == 0 {
        seq![]
    } else if items.len() == 1 {
        items[0]
    } else {
        joined(items.drop_last()) + seq![','] + items.last()
    }
}

/// The JSON array of the items with these texts.
pub open spec fn array_text(items: Seq<Seq<char>>) -> Seq<char> {
    seq!['['] + joined(items) + seq![']']
}

/// A member of an object: its key and the text of its value.
pub open spec fn member_text(member: (Seq<char>, Seq<char>)) -> Seq<char> {
    string_text(member.0) + seq![':'] + member.1
}

/// The JSON object of these members, in this order.
pub open spec fn object_text(members: Seq<(Seq<char>, Seq<char>)>) -> Seq<char> {
    seq!['{'] + joined(members.map_values(|m: (Seq<char>, Seq<char>)| member_text(m))) + seq!['}']
}

/// `a` comes before `b` in the order of strings: at the first position where
/// they differ it has the smaller character, or it ends there.
pub open spec fn key_before(a: Seq<char>, b: Seq<char>) -> bool {
    exists|d: int| #[trigger] differ_at(a, b, d)
}

/// `d` is where `a` and `b` first differ, and there `a` is the smaller.
pub open spec fn differ_at(a: Seq<char>, b: Seq<char>, d: int) -> bool {
    &&& 0 <= d <= a.len()
    &&& d < b.len()
    &&& a.take(d) == b.take(d)
    &&& d < a.len() ==> a[d] < b[d]
}

/// The keys stand in ascending order, none twice.
pub open spec fn ascending(members: Seq<(Seq<char>, Seq<char>)>) -> bool {
    forall|i: int| 0 < i < members.len() ==> key_before(members[i - 1].0, #[trigger] members[i].0)
}

// ---------------------------------------------------------------------------
// Values
// ---------------------------------------------------------------------------

/// A JSON value of serde_json.
#[verifier::external_type_specification]
#[verifier::external_body]
pub struct ExValue(serde_json::Value);

/// The compact text of a value: what its `Display` writes.
pub uninterp spec fn value_text(v: serde_json::Value) -> Seq<char>;

/// The keys of the members and the texts of their values.
pub open spec fn members_of(members: Seq<(String, Value)>) -> Seq<(Seq<char>, Seq<char>)> {
    members.map_values(|m: (String, Value)| (m.0@, value_text(m.1)))
}

/// `Value::from` of serde_json on a string: a JSON string, with quotes,
/// backslashes and control characters escaped.
#[verifier::external_body]
pub(crate) fn string_value(s: &str) -> (v: Value)
    ensures
        value_text(v) == string_text(s@),
{
    Value::from(s)
}

/// `Value::from` of serde_json on an unsigned integer: its decimal numeral.
#[verifier::external_body]
pub(crate) fn unsigned_value(n: u64) -> (v: Value)
    ensures
        value_text(v) == text::decimal(n as nat),
{
    Value::from(n)
}

/// `Value::from` of serde_json on a signed integer: its decimal numeral.
#[verifier::external_body]
pub(crate) fn signed_value(n: i64) -> (v: Value)
    ensures
        value_text(v) == text::signed_decimal(n as int),
{
    Value::from(n)
}

/// `Value::from` of serde_json on a truth value.
#[verifier::external_body]
pub(crate) fn bool_value(b: bool) -> (v: Value)
    ensures
        value_text(v) == if b { "true"@ } else { "false"@ },
{
    Value::from(b)
}

/// `Value::Null` of serde_json.
#[verifier::external_body]
pub(crate) fn null_value() -> (v: Value)
    ensures
        value_text(v) == "null"@,
{
    Value::Null
}

/// The text of a number of seconds, given in nanoseconds: the shortest decimal
/// that stands for the nearest floating-point number.
pub uninterp spec fn seconds_text(nanos: nat) -> Seq<char>;

/// `Value::from` of serde_json on a number of seconds as a floating-point
/// number. Its digits are named by `seconds_text`, not spelled out.
#[verifier::external_body]
pub(crate) fn seconds_value(nanos: u64) -> (v: Value)
    ensures
        value_text(v) == seconds_text(nanos as nat),
{
    Value::from(std::time::Duration::from_nanos(nanos).as_secs_f64())
}

/// `Value::from` of serde_json on a list: the array of the items.
#[verifier::external_body]
pub(crate) fn array_value(items: Vec<Value>) -> (v: Value)
    ensures
        value_text(v) == array_text(items@.map_values(|item: Value| value_text(item))),
{
    Value::from(items)
}

/// `Value::from_iter` of serde_json on keys with their values: the object of
/// these members. It writes them in ascending order of their keys; of members
/// given in another order nothing is said.
#[verifier::external_body]
pub(crate) fn object_value(members: Vec<(String, Value)>) -> (v: Value)
    ensures
        ascending(members_of(members@)) ==> value_text(v) == object_text(members_of(members@)),
{
    members.into_iter().collect()
}

/// `Value::to_string` of serde_json: the compact text of the value.
#[verifier::external_body]
pub(crate) fn render(v: &Value) -> (s: String)
    ensures
        s@ == value_text(*v),
{
    v.to_string()
}

// ---------------------------------------------------------------------------
// Reading the members of an object
// ---------------------------------------------------------------------------

/// What a member of an object holds, as far as a reader of numbers and strings
/// can use it.
#[derive(Debug)]
pub enum Leaf {
    /// A number: as an unsigned and as a signed integer if it is one, and the bits
    /// of the floating-point number that it is read as.
    Number { unsigned: Option<u64>, signed: Option<i64>, float_bits: Option<u64> },
    /// A string.
    Text(String),
    /// Anything else: null, a truth value, an array or an object.
    Other,
}

/// The model of `Leaf`.
pub ghost enum LeafView {
    Number { unsigned: Option<u64>, signed: Option<i64>, float_bits: Option<u64> },
    Text(Seq<char>),
    Other,
}

impl View for Leaf {
    type V = LeafView;

    open spec fn view(&self) -> LeafView {
        match self {
            Leaf::Number { unsigned, signed, float_bits } => LeafView::Number {
                unsigned: *unsigned,
                signed: *signed,
                float_bits: *float_bits,
            },
            Leaf::Text(s) => LeafView::Text(s@),
            Leaf::Other => LeafView::Other,
        }
    }
}

/// The keys of the members and what they hold.
pub open spec fn leaves_of(members: Seq<(String, Leaf)>) -> Seq<(Seq<char>, LeafView)> {
    members.map_values(|m: (String, Leaf)| (m.0@, m.1@))
}

/// The members of the object that `bytes` spell in JSON: none of them where the
/// JSON is not an object, and `None` where `bytes` are not JSON.
pub uninterp spec fn object_members(bytes: Seq<u8>) -> Option<Seq<(Seq<char>, LeafView)>>;

/// `from_slice` of serde_json, and the members of the object that it read. Which
/// texts are JSON, and what they hold, is named by `object_members`, not spelled
/// out.
#[verifier::external_body]
pub(crate) fn read_object(bytes: &[u8]) -> (members: Option<Vec<(String, Leaf)>>)
    ensures
        match members {
            Some(m) => object_members(bytes@) == Some(leaves_of(m@)),
            None => object_members(bytes@) is None,
        },
{
    let leaf = |v| match v {
        Number(n) => Leaf::Number {
            unsigned: n.as_u64(),
            signed: n.as_i64(),
            float_bits: n.as_f64().map(|x| x.to_bits()),
        },
        Value::String(s) => Leaf::Text(s),
        Null | Bool(_) | Array(_) | Object(_) => Leaf::Other,
    };
    match serde_json::from_slice::<Value>(bytes) {
        Ok(Object(m)) => Some(m.into_iter().map(|(k, v)| (k, leaf(v))).collect()),
        Ok(Null | Bool(_) | Number(_) | Value::String(_) | Array(_)) => Some(Vec::new()),
        Err(_) => None,
    }
}

/// What the first member under `key` holds.
pub open spec fn member(members: Seq<(Seq<char>, LeafView)>, key: Seq<char>) -> Option<LeafView>
    decreases members.len(),
{
    if members.len() == 0 {
        None
    } else if members[0].0 == key {
        Some(members[0].1)
    } else {
        member(members.drop_first(), key)
    }
}

/// The first member under `key`.
pub fn find_member<'a>(members: &'a Vec<(String, Leaf)>, key: &str) -> (found: Option<&'a Leaf>)
    ensures
        match found {
            Some(leaf) => member(leaves_of(members@), key@) == Some(leaf@),
            None => member(leaves_of(members@), key@) is None,
        },
{
    let ghost all = leaves_of(members@);
    let mut i: usize = 0;
    assert(all.skip(0) == all);
    while i < members.len()
        invariant
            i <= members@.len(),
            all == leaves_of(members@),
            member(all, key@) == member(all.skip(i as int), key@),
        decreases members@.len() - i,
    {
        let entry = &members[i];
        assert(all.skip(i as int)[0] == (entry.0@, entry.1@));
        if text::same_text(entry.0.as_str(), key) {
            return Some(&entry.1);
        }
        assert(all.skip(i as int).drop_first() == all.skip(i + 1));
        i += 1;
    }
    None
}

// ---------------------------------------------------------------------------
// Writing texts
// ---------------------------------------------------------------------------

/// The texts one after the other, with commas between them.
fn join_texts(items: &Vec<String>) -> (joint: String)
    ensures
        joint@ == joined(text::texts(items@)),
{
    let ghost all = text::texts(items@);
    let mut joint = String::new();
    let mut i: usize = 0;
    assert(joint@ =~= joined(all.take(0)));
    while i < items.len()
        invariant
            i <= items@.len(),
            all == text::texts(items@),
            joint@ == joined(all.take(i as int)),
        decreases items@.len() - i,
    {
        let ghost next = all.take(i + 1);
        proof {
            assert(next.drop_last() =~= all.take(i as int));
            assert(next.last() == items@[i as int]@);
        }
        if i > 0 {
            joint.append(",");
            proof {
                reveal_strlit(",");
                assert(","@ =~= seq![',']);
            }
        }
        joint.append(items[i].as_str());
        assert(joint@ =~= joined(next));
        i += 1;
    }
    assert(all.take(i as int) =~= all);
    joint
}

/// The JSON string that holds `s`.
pub fn write_string(s: &str) -> (json: String)
    ensures
        json@ == string_text(s@),
{
    render(&string_value(s))
}

/// The JSON array of the items with these texts.
pub fn write_array(items: &Vec<String>) -> (json: String)
    ensures
        json@ == array_text(text::texts(items@)),
{
    let mut json = "[".to_string();
    json.append(join_texts(items).as_str());
    json.append("]");
    proof {
        reveal_strlit("[");
        reveal_strlit("]");
        assert("["@ =~= seq!['[']);
        assert("]"@ =~= seq![']']);
    }
    json
}

/// The keys of the members and the texts of their values.
pub open spec fn written_members(members: Seq<(&'static str, String)>) -> Seq<
    (Seq<char>, Seq<char>),
> {
    members.map_values(|m: (&'static str, String)| (m.0@, m.1@))
}

/// The JSON object of these members, in this order.
pub fn write_object(members: &Vec<(&'static str, String)>) -> (json: String)
    ensures
        json@ == object_text(written_members(members@)),
{
    let ghost wanted = written_members(members@).map_values(
        |m: (Seq<char>, Seq<char>)| member_text(m),
    );
    let mut parts: Vec<String> = Vec::new();
    let mut i: usize = 0;
    while i < members.len()
        invariant
            i <= members@.len(),
            wanted == written_members(members@).map_values(
                |m: (Seq<char>, Seq<char>)| member_text(m),
            ),
            text::texts(parts@) == wanted.take(i as int),
        decreases members@.len() - i,
    {
        let ghost before = text::texts(parts@);
        let mut part = write_string(members[i].0);
        part.append(":");
        part.append(members[i].1.as_str());
        proof {
            reveal_strlit(":");
            assert(":"@ =~= seq![':']);
            assert(wanted[i as int] == part@);
        }
        parts.push(part);
        assert(text::texts(parts@) =~= before.push(wanted[i as int]));
        assert(before.push(wanted[i as int]) =~= wanted.take(i + 1));
        i += 1;
    }
    assert(wanted.take(i as int) =~= wanted);
    let mut json = "{".to_string();
    json.append(join_texts(&parts).as_str());
    json.append("}");
    proof {
        reveal_strlit("{");
        reveal_strlit("}");
        assert("{"@ =~= seq!['{']);
        assert("}"@ =~= seq!['}']);
    }
    json
}

// ---------------------------------------------------------------------------
// Lists of flat objects
// ---------------------------------------------------------------------------

/// A string or an integer, as a member of an object.
pub ghost enum Scalar {
    Text(Seq<char>),
    Integer(int),
}

/// The JSON text of a string or an integer.
pub open spec fn scalar_text(value: Scalar) -> Seq<char> {
    match value {
        Scalar::Text(s) => string_text(s),
        Scalar::Integer(n) => text::signed_decimal(n),
    }
}

/// The members of a flat object, with the texts of their values.
pub open spec fn row_members(row: Seq<(Seq<char>, Scalar)>) -> Seq<(Seq<char>, Seq<char>)> {
    row.map_values(|m: (Seq<char>, Scalar)| (m.0, scalar_text(m.1)))
}

/// The JSON array of these flat objects.
pub open spec fn rows_text(rows: Seq<Seq<(Seq<char>, Scalar)>>) -> Seq<char> {
    array_text(rows.map_values(|row: Seq<(Seq<char>, Scalar)>| object_text(row_members(row))))
}

/// No key stands twice in the object, and its integers fit into 64 bits.
pub open spec fn is_row(row: Seq<(Seq<char>, Scalar)>) -> bool {
    &&& forall|i: int, j: int|
        0 <= i < j < row.len() ==> (#[trigger] row[i]).0 != (#[trigger] row[j]).0
    &&& forall|i: int|
        0 <= i < row.len() ==> ((#[trigger] row[i]).1 matches Scalar::Integer(n) ==> i64::MIN <= n
            <= u64::MAX)
}

/// `leaf` is what a reader finds where `value` was written.
pub open spec fn reads_as(leaf: LeafView, value: Scalar) -> bool {
    match value {
        Scalar::Text(s) => leaf == LeafView::Text(s),
        Scalar::Integer(n) => {
            &&& leaf matches LeafView::Number { unsigned, signed, .. }
            &&& unsigned == if 0 <= n {
                Some(n as u64)
            } else {
                None
            }
            &&& signed == if n <= i64::MAX {
                Some(n as i64)
            } else {
                None
            }
        },
    }
}

/// The members of an object hold what was written for the row, each under its key.
pub open spec fn holds_row(
    members: Seq<(Seq<char>, LeafView)>,
    row: Seq<(Seq<char>, Scalar)>,
) -> bool {
    forall|i: int|
        0 <= i < row.len() ==> (member(members, (#[trigger] row[i]).0) matches Some(leaf)
            && reads_as(leaf, row[i].1))
}

/// The items of a list are objects that hold what was written for these rows.
pub open spec fn holds_rows(
    items: Seq<Seq<(Seq<char>, LeafView)>>,
    rows: Seq<Seq<(Seq<char>, Scalar)>>,
) -> bool {
    &&& items.len() == rows.len()
    &&& forall|i: int| 0 <= i < rows.len() ==> holds_row(#[trigger] items[i], rows[i])
}

/// The objects of a list, by their members.
pub open spec fn items_of(items: Seq<Vec<(String, Leaf)>>) -> Seq<Seq<(Seq<char>, LeafView)>> {
    items.map_values(|members: Vec<(String, Leaf)>| leaves_of(members@))
}

/// The objects of a list, where there is one.
pub open spec fn list_of(items: Option<Vec<Vec<(String, Leaf)>>>) -> Option<
    Seq<Seq<(Seq<char>, LeafView)>>,
> {
    match items {
        Some(list) => Some(items_of(list@)),
        None => None,
    }
}

/// Where `bytes` are the text of a list of flat objects, `items` hold what was written.
pub open spec fn reads_rows_back(
    bytes: Seq<u8>,
    items: Option<Seq<Seq<(Seq<char>, LeafView)>>>,
) -> bool {
    forall|rows: Seq<Seq<(Seq<char>, Scalar)>>|
        bytes == encode_utf8(#[trigger] rows_text(rows)) && (forall|i: int|
            0 <= i < rows.len() ==> is_row(#[trigger] rows[i])) ==> (items matches Some(list)
            && holds_rows(list, rows))
}

/// The objects of the array of objects that `bytes` spell in JSON; `None` where `bytes`
/// are not JSON, or spell something else.
pub uninterp spec fn list_items(bytes: Seq<u8>) -> Option<Seq<Seq<(Seq<char>, LeafView)>>>;

/// `from_slice` of serde_json, for a list of its `Map`, and the members of each. Which
/// texts are such lists, and what they hold, is named by `list_items`, not spelled out,
/// but for this: what was written as a list of flat objects reads back, each member under
/// its key.
#[verifier::external_body]
pub(crate) fn read_list(bytes: &[u8]) -> (items: Option<Vec<Vec<(String, Leaf)>>>)
    ensures
        list_of(items) == list_items(bytes@),
        reads_rows_back(bytes@, list_of(items)),
{
    let leaf = |v| match v {
        Number(n) => Leaf::Number {
            unsigned: n.as_u64(),
            signed: n.as_i64(),
            float_bits: n.as_f64().map(|x| x.to_bits()),
        },
        Value::String(s) => Leaf::Text(s),
        Null | Bool(_) | Array(_) | Object(_) => Leaf::Other,
    };
    let item = |m: serde_json::Map<String, Value>| m.into_iter().map(|(k, v)| (k, leaf(v))).collect();
    let list = serde_json::from_slice::<Vec<serde_json::Map<String, Value>>>(bytes).ok();
    list.map(|items| items.into_iter().map(item).collect())
}

// ---------------------------------------------------------------------------
// Laws
// ---------------------------------------------------------------------------

/// The characters of a JSON string, read from the front.
proof fn lemma_escaped_front(s: Seq<char>)
    requires
        s.len() > 0,
    ensures
        escaped(s) == escaped_char(s[0]) + escaped(s.drop_first()),
    decreases s.len(),
{
    if s.len() == 1 {
        assert(s.drop_last() =~= Seq::<char>::empty());
        assert(s.drop_first() =~= Seq::<char>::empty());
        assert(escaped(s.drop_last()) =~= Seq::<char>::empty());
        assert(escaped(s) =~= escaped_char(s[0]) + escaped(s.drop_first()));
    } else {
        lemma_escaped_front(s.drop_last());
        assert(s.drop_last().drop_first() =~= s.drop_first().drop_last());
        assert(escaped(s) =~= escaped_char(s[0]) + (escaped(s.drop_first().drop_last())
            + escaped_char(s.last())));
        assert(s.drop_first().last() == s.last());
    }
}

/// The two hexadecimal digits of a number below 32 tell it.
proof fn lemma_hex_two(a: nat, b: nat)
    requires
        a < 32,
        b < 32,
        text::hex(a, 2) == text::hex(b, 2),
    ensures
        a == b,
{
    reveal_with_fuel(text::hex, 3);
    assert(text::hex(a, 2) =~= seq![text::digit_char((a / 16) as int), text::digit_char((a % 16) as int)]);
    assert(text::hex(b, 2) =~= seq![text::digit_char((b / 16) as int), text::digit_char((b % 16) as int)]);
    assert(text::hex(a, 2)[0] == text::hex(b, 2)[0]);
    assert(text::hex(a, 2)[1] == text::hex(b, 2)[1]);
}

/// Different characters are written differently, whatever follows them.
proof fn lemma_escapes_differ(a: char, x: Seq<char>, b: char, y: Seq<char>)
    requires
        escaped_char(a) + x == escaped_char(b) + y,
    ensures
        a == b,
        x == y,
{
    reveal_with_fuel(text::hex, 3);
    let ea = escaped_char(a);
    let eb = escaped_char(b);
    assert((ea + x)[0] == ea[0] && (eb + y)[0] == eb[0]);
    if ea[0] == '\\' {
        assert((ea + x)[1] == ea[1] && (eb + y)[1] == eb[1]);
        if ea[1] == 'u' {
            assert(ea.len() == 6 && eb.len() == 6);
            assert((ea + x).take(6) =~= ea);
            assert((eb + y).take(6) =~= eb);
            assert(ea.skip(4) =~= text::hex(a as nat, 2));
            assert(eb.skip(4) =~= text::hex(b as nat, 2));
            lemma_hex_two(a as nat, b as nat);
        }
    }
    assert(a == b);
    assert((ea + x).skip(ea.len() as int) =~= x);
    assert((eb + y).skip(eb.len() as int) =~= y);
}

/// Different texts are different inside a JSON string.
proof fn lemma_escaped_injective(a: Seq<char>, b: Seq<char>)
    requires
        escaped(a) == escaped(b),
    ensures
        a == b,
    decreases a.len(),
{
    if a.len() == 0 {
        if b.len() > 0 {
            lemma_escaped_front(b);
            assert(escaped(b).len() > 0);
        }
        assert(a =~= b);
    } else {
        lemma_escaped_front(a);
        if b.len() == 0 {
            assert(escaped(a).len() > 0);
        } else {
            lemma_escaped_front(b);
            lemma_escapes_differ(
                a[0],
                escaped(a.drop_first()),
                b[0],
                escaped(b.drop_first()),
            );
            lemma_escaped_injective(a.drop_first(), b.drop_first());
            assert(a =~= seq![a[0]] + a.drop_first());
            assert(b =~= seq![b[0]] + b.drop_first());
        }
    }
}

/// A JSON string tells the text that it holds: different texts are written differently,
/// and none is written like a bare word such as `null`.
pub proof fn law_strings_tell_their_texts(a: Seq<char>, b: Seq<char>)
    ensures
        string_text(a) == string_text(b) ==> a == b,
        string_text(a)[0] == '"',
        string_text(a).last() == '"',
        string_text(a).len() >= 2,
{
    if string_text(a) == string_text(b) {
        let x = string_text(a);
        let y = string_text(b);
        assert(x.subrange(1, x.len() - 1) =~= escaped(a));
        assert(y.subrange(1, y.len() - 1) =~= escaped(b));
        lemma_escaped_injective(a, b);
    }
}

/// Of two lists that differ in one place at most, the joint texts tell that place.
proof fn lemma_joined_differs(a: Seq<Seq<char>>, b: Seq<Seq<char>>, k: int)
    requires
        a.len() == b.len(),
        0 <= k < a.len(),
        forall|i: int| 0 <= i < a.len() && i != k ==> #[trigger] a[i] == b[i],
        joined(a) == joined(b),
    ensures
        a[k] == b[k],
    decreases a.len(),
{
    if a.len() > 1 {
        let x = a.drop_last();
        let y = b.drop_last();
        let n = a.len() - 1;
        if k == n {
            assert(x =~= y);
            let head = joined(x) + seq![','];
            assert(joined(a).skip(head.len() as int) =~= a.last());
            assert(joined(b).skip(head.len() as int) =~= b.last());
        } else {
            assert(a[n] == b[n]);
            assert(a.last() == b.last());
            assert(joined(a) == joined(x) + seq![','] + a.last());
            assert(joined(b) == joined(y) + seq![','] + b.last());
            assert(joined(x).len() == joined(y).len());
            assert(joined(a).take(joined(x).len() as int) =~= joined(x));
            assert(joined(b).take(joined(y).len() as int) =~= joined(y));
            assert forall|i: int| 0 <= i < x.len() && i != k implies #[trigger] x[i] == y[i] by {
                assert(x[i] == a[i] && y[i] == b[i]);
            }
            lemma_joined_differs(x, y, k);
        }
    }
}

/// An object tells each of its members: of two objects that differ in the value of one
/// member at most, the texts differ where that value does.
pub proof fn law_objects_tell_their_members(
    a: Seq<(Seq<char>, Seq<char>)>,
    b: Seq<(Seq<char>, Seq<char>)>,
    k: int,
)
    requires
        a.len() == b.len(),
        0 <= k < a.len(),
        a[k].0 == b[k].0,
        forall|i: int| 0 <= i < a.len() && i != k ==> #[trigger] a[i] == b[i],
    ensures
        object_text(a) == object_text(b) ==> a[k].1 == b[k].1,
{
    if object_text(a) == object_text(b) {
        let x = a.map_values(|m: (Seq<char>, Seq<char>)| member_text(m));
        let y = b.map_values(|m: (Seq<char>, Seq<char>)| member_text(m));
        assert(object_text(a).subrange(1, object_text(a).len() - 1) =~= joined(x));
        assert(object_text(b).subrange(1, object_text(b).len() - 1) =~= joined(y));
        assert forall|i: int| 0 <= i < x.len() && i != k implies #[trigger] x[i] == y[i] by {
            assert(a[i] == b[i]);
        }
        lemma_joined_differs(x, y, k);
        let head = string_text(a[k].0) + seq![':'];
        assert(x[k].skip(head.len() as int) =~= a[k].1);
        assert(y[k].skip(head.len() as int) =~= b[k].1);
    }
}

/// A member is found under its own key: the first of that key, and none where no member has
/// it.
pub proof fn law_a_member_is_found_by_its_key(
    members: Seq<(Seq<char>, LeafView)>,
    key: Seq<char>,
    k: int,
)
    requires
        0 <= k <= members.len(),
        forall|i: int| 0 <= i < k ==> (#[trigger] members[i]).0 != key,
        k < members.len() ==> members[k].0 == key,
    ensures
        k < members.len() ==> member(members, key) == Some(members[k].1),
        k == members.len() ==> member(members, key) is None,
    decreases members.len(),
{
    if members.len() > 0 && k > 0 {
        let rest = members.drop_first();
        assert(members[0].0 != key);
        assert forall|i: int| 0 <= i < k - 1 implies (#[trigger] rest[i]).0 != key by {
            assert(rest[i] == members[i + 1]);
        }
        law_a_member_is_found_by_its_key(rest, key, k - 1);
    }
}

} // verus!
