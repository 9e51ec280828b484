//! Finding credentials and tokens in text that a user pasted.

use crate::error::SoneError;
use crate::text;
use vstd::prelude::*;
use vstd::string::*;

verus! {

// ---------------------------------------------------------------------------
// `key=value`
// ---------------------------------------------------------------------------

/// A character that ends a form value.
pub open spec fn ends_form_value() -> spec_fn(char) -> bool {
    |c: char| c == '&' || c == '"' || c == '\'' || text::is_white(c)
}

/// The value that stands after the first `key=`; an empty one counts as none.
pub open spec fn form_value(s: Seq<char>, key: Seq<char>) -> Option<Seq<char>> {
    let pattern = key + seq!['='];
    match text::position(s, pattern) {
        Some(at) => {
            let rest = s.skip(at + pattern.len());
            let value = rest.take(text::span(rest, ends_form_value()) as int);
            if value.len() == 0 {
                None
            } else {
                Some(value)
            }
        },
        None => None,
    }
}

/// Whether `c` ends a form value.
fn is_form_end(c: char) -> (end: bool)
    ensures
        end == ends_form_value()(c),
{
    c == '&' || c == '"' || c == '\'' || text::is_whitespace(c)
}

/// Extract a value for `key=<value>` from URL-encoded / form-data text.
pub fn extract_form_value(text: &str, key: &str) -> (value: Option<String>)
    ensures
        text::text_of(value) == form_value(text@, key@),
{
    let chars = text::chars_of(text);
    let mut pattern = text::chars_of(key);
    pattern.push('=');
    assert(pattern@ =~= key@ + seq!['=']);
    let at: usize = match text::find(&chars, &pattern) {
        Some(at) => at,
        None => {
            return None;
        },
    };
    let size: usize = chars.len();
    assert(at + pattern@.len() <= size);
    let start: usize = at + pattern.len();
    let ghost rest = text@.skip(start as int);
    let mut end: usize = start;
    while end < chars.len() && !is_form_end(chars[end])
        invariant
            chars@ == text@,
            rest == text@.skip(start as int),
            start <= end <= chars@.len(),
            forall|i: int| 0 <= i < end - start ==> !ends_form_value()(#[trigger] rest[i]),
        decreases chars@.len() - end,
    {
        assert(rest[end - start] == chars@[end as int]);
        end += 1;
    }
    proof {
        text::lemma_span(rest, ends_form_value(), end - start);
        assert(rest.take(end - start) =~= text@.subrange(start as int, end as int));
    }
    if end == start {
        None
    } else {
        Some(text.substring_char(start, end).to_string())
    }
}

// ---------------------------------------------------------------------------
// `"key": "value"`
// ---------------------------------------------------------------------------

/// What stands after a separator (`:` or `=`), white space around it skipped.
pub open spec fn after_separator(s: Seq<char>) -> Option<Seq<char>> {
    let t = text::trim_start(s);
    if t.len() > 0 && (t[0] == ':' || t[0] == '=') {
        Some(text::trim_start(t.skip(1)))
    } else {
        None
    }
}

/// A character other than `quote` does not end a quoted value.
pub open spec fn is_quote(quote: char) -> spec_fn(char) -> bool {
    |c: char| c == quote
}

/// The quoted text that `s` begins with, in single or double quotes; an empty or
/// an unclosed one counts as none.
pub open spec fn leading_quoted(s: Seq<char>) -> Option<Seq<char>> {
    if s.len() > 0 && (s[0] == '"' || s[0] == '\'') {
        let rest = s.skip(1);
        let n = text::span(rest, is_quote(s[0]));
        if 0 < n < rest.len() {
            Some(rest.take(n as int))
        } else {
            None
        }
    } else {
        None
    }
}

/// The value of the first `key` that is written in these quotes.
pub open spec fn quoted_key_value(s: Seq<char>, key: Seq<char>, quote: char) -> Option<Seq<char>> {
    let pattern = seq![quote] + key + seq![quote];
    match text::position(s, pattern) {
        Some(at) => match after_separator(s.skip(at + pattern.len())) {
            Some(rest) => leading_quoted(rest),
            None => None,
        },
        None => None,
    }
}

/// The value of `key` in JSON-like text: of the double-quoted key, else of the
/// single-quoted one.
pub open spec fn json_value(s: Seq<char>, key: Seq<char>) -> Option<Seq<char>> {
    match quoted_key_value(s, key, '"') {
        Some(value) => Some(value),
        None => quoted_key_value(s, key, '\''),
    }
}

/// The quoted text at `from`, if there is one.
fn quoted_at(text: &str, chars: &Vec<char>, from: usize) -> (value: Option<String>)
    requires
        chars@ == text@,
        from <= chars@.len(),
    ensures
        text::text_of(value) == leading_quoted(text@.skip(from as int)),
{
    let ghost s = text@.skip(from as int);
    if from == chars.len() {
        return None;
    }
    let quote: char = chars[from];
    assert(s[0] == quote);
    if !(quote == '"' || quote == '\'') {
        return None;
    }
    let start: usize = from + 1;
    let ghost rest = s.skip(1);
    assert(rest =~= text@.skip(start as int));
    let mut end: usize = start;
    while end < chars.len() && chars[end] != quote
        invariant
            chars@ == text@,
            rest == text@.skip(start as int),
            start <= end <= chars@.len(),
            forall|i: int| 0 <= i < end - start ==> !is_quote(quote)(#[trigger] rest[i]),
        decreases chars@.len() - end,
    {
        assert(rest[end - start] == chars@[end as int]);
        end += 1;
    }
    proof {
        text::lemma_span(rest, is_quote(quote), end - start);
        assert(rest.take(end - start) =~= text@.subrange(start as int, end as int));
    }
    if end == start || end == chars.len() {
        None
    } else {
        Some(text.substring_char(start, end).to_string())
    }
}

/// The value of the first `key` that is written in these quotes.
fn extract_quoted(text: &str, chars: &Vec<char>, key: &str, quote: char) -> (value: Option<String>)
    requires
        chars@ == text@,
    ensures
        text::text_of(value) == quoted_key_value(text@, key@, quote),
{
    let mut pattern: Vec<char> = Vec::new();
    pattern.push(quote);
    let mut letters = text::chars_of(key);
    pattern.append(&mut letters);
    pattern.push(quote);
    assert(pattern@ =~= seq![quote] + key@ + seq![quote]);
    let at: usize = match text::find(chars, &pattern) {
        Some(at) => at,
        None => {
            return None;
        },
    };
    let size: usize = chars.len();
    assert(at + pattern@.len() <= size);
    let after_key: usize = at + pattern.len();
    let separator: usize = text::skip_whitespace(chars, after_key);
    let ghost t = text@.skip(separator as int);
    if separator == size {
        return None;
    }
    assert(t[0] == chars@[separator as int]);
    if chars[separator] != ':' && chars[separator] != '=' {
        return None;
    }
    assert(t.skip(1) =~= text@.skip(separator + 1));
    let from: usize = text::skip_whitespace(chars, separator + 1);
    quoted_at(text, chars, from)
}

/// Extract a value for `"key": "value"` from JSON-like text.
pub fn extract_json_value(text: &str, key: &str) -> (value: Option<String>)
    ensures
        text::text_of(value) == json_value(text@, key@),
{
    let chars = text::chars_of(text);
    match extract_quoted(text, &chars, key, '"') {
        Some(value) => Some(value),
        None => extract_quoted(text, &chars, key, '\''),
    }
}

// ---------------------------------------------------------------------------
// The pasted text
// ---------------------------------------------------------------------------

/// What was found in a pasted text.
#[derive(Debug)]
pub struct ParsedTokens {
    pub client_id: Option<String>,
    pub client_secret: Option<String>,
    pub refresh_token: Option<String>,
    pub access_token: Option<String>,
}

/// The value of `key`, written as a form or, failing that, as JSON.
pub open spec fn form_or_json(s: Seq<char>, key: Seq<char>) -> Option<Seq<char>> {
    match form_value(s, key) {
        Some(value) => Some(value),
        None => json_value(s, key),
    }
}

/// The message for a text in which nothing was found.
pub const NOTHING_FOUND: &'static str =
    "Could not find any credentials or tokens in the pasted text.";

/// The value of `key`, written as a form or, failing that, as JSON.
fn extract_either(text: &str, key: &str) -> (value: Option<String>)
    ensures
        text::text_of(value) == form_or_json(text@, key@),
{
    match extract_form_value(text, key) {
        Some(value) => Some(value),
        None => extract_json_value(text, key),
    }
}

/// Find the client id and secret, the refresh token and the access token in a
/// pasted text. A secret alone is not enough.
pub fn parse_token_data(raw_text: String) -> (tokens: Result<ParsedTokens, SoneError>)
    ensures
        ({
            let s = text::trim(raw_text@);
            let client_id = form_or_json(s, "client_id"@);
            let refresh_token = form_or_json(s, "refresh_token"@);
            let access_token = json_value(s, "access_token"@);
            match tokens {
                Ok(tokens) => {
                    &&& client_id is Some || refresh_token is Some || access_token is Some
                    &&& text::text_of(tokens.client_id) == client_id
                    &&& text::text_of(tokens.client_secret) == form_or_json(s, "client_secret"@)
                    &&& text::text_of(tokens.refresh_token) == refresh_token
                    &&& text::text_of(tokens.access_token) == access_token
                },
                Err(error) => {
                    &&& client_id is None && refresh_token is None && access_token is None
                    &&& error matches SoneError::Parse(message)
                    &&& message@ == NOTHING_FOUND@
                },
            }
        }),
        form_value(text::trim(raw_text@), "client_id"@) is Some ==> tokens is Ok,
        json_value(text::trim(raw_text@), "client_id"@) is Some ==> tokens is Ok,
        form_value(text::trim(raw_text@), "refresh_token"@) is Some ==> tokens is Ok,
        json_value(text::trim(raw_text@), "refresh_token"@) is Some ==> tokens is Ok,
        json_value(text::trim(raw_text@), "access_token"@) is Some ==> tokens is Ok,
        tokens matches Ok(tokens) ==> {
            &&& form_value(text::trim(raw_text@), "client_id"@) matches Some(value) ==> text::text_of(
                tokens.client_id,
            ) == Some(value)
            &&& form_value(text::trim(raw_text@), "client_secret"@) matches Some(
                value,
            ) ==> text::text_of(tokens.client_secret) == Some(value)
            &&& form_value(text::trim(raw_text@), "refresh_token"@) matches Some(
                value,
            ) ==> text::text_of(tokens.refresh_token) == Some(value)
            &&& text::text_of(tokens.access_token) == json_value(
                text::trim(raw_text@),
                "access_token"@,
            )
        },
{
    let text = text::trimmed(raw_text.as_str());
    let client_id = extract_either(text, "client_id");
    let client_secret = extract_either(text, "client_secret");
    let refresh_token = extract_either(text, "refresh_token");
    let access_token = extract_json_value(text, "access_token");
    if client_id.is_none() && refresh_token.is_none() && access_token.is_none() {
        return Err(SoneError::Parse(NOTHING_FOUND.to_string()));
    }
    Ok(ParsedTokens { client_id, client_secret, refresh_token, access_token })
}

// ---------------------------------------------------------------------------
// Laws
// ---------------------------------------------------------------------------

/// A form value is never empty and holds nothing that ends one: no `&`, no double quote, no
/// single quote, no white space. It stands in the text right after the first `key=`, and
/// goes on to one of these or to the end.
pub proof fn law_form_values_are_clean(s: Seq<char>, key: Seq<char>)
    ensures
        form_value(s, key) matches Some(value) ==> value.len() > 0 && (forall|i: int|
            0 <= i < value.len() ==> #[trigger] value[i] != '&' && value[i] != '"' && value[i]
                != '\'' && !text::is_white(value[i])),
        !text::occurs(s, key + seq!['=']) ==> form_value(s, key) is None,
{
    if let Some(at) = text::position(s, key + seq!['=']) {
        let rest = s.skip(at + key.len() + 1);
        lemma_before_span(rest, ends_form_value());
        assert(rest =~= s.skip(at + (key + seq!['=']).len()));
        let value = rest.take(text::span(rest, ends_form_value()) as int);
        assert forall|i: int| 0 <= i < value.len() implies #[trigger] value[i] != '&' && value[i]
            != '"' && value[i] != '\'' && !text::is_white(value[i]) by {
            assert(value[i] == rest[i]);
            assert(!ends_form_value()(rest[i]));
        }
    }
}

/// No character before `span` satisfies `stop`.
proof fn lemma_before_span(s: Seq<char>, stop: spec_fn(char) -> bool)
    ensures
        text::span(s, stop) <= s.len(),
        forall|i: int| 0 <= i < text::span(s, stop) ==> !stop(#[trigger] s[i]),
    decreases s.len(),
{
    if s.len() > 0 && !stop(s[0]) {
        let rest = s.drop_first();
        lemma_before_span(rest, stop);
        assert forall|i: int| 0 <= i < text::span(s, stop) implies !stop(#[trigger] s[i]) by {
            if i > 0 {
                assert(s[i] == rest[i - 1]);
            }
        }
    }
}

/// What a form holds is read back: a value that is not empty and holds no `&`, no quote and
/// no white space comes out whole where any of these, or nothing, follows it, if `key=` does
/// not stand earlier in the text.
pub proof fn law_form_value_reads_back(
    before: Seq<char>,
    key: Seq<char>,
    value: Seq<char>,
    after: Seq<char>,
)
    requires
        value.len() > 0,
        forall|i: int|
            0 <= i < value.len() ==> #[trigger] value[i] != '&' && value[i] != '"' && value[i]
                != '\'' && !text::is_white(value[i]),
        after.len() > 0 ==> after[0] == '&' || after[0] == '"' || after[0] == '\''
            || text::is_white(after[0]),
        forall|i: int|
            0 <= i < before.len() ==> !#[trigger] text::occurs_at(
                before + key + seq!['='] + value + after,
                key + seq!['='],
                i,
            ),
    ensures
        form_value(before + key + seq!['='] + value + after, key) == Some(value),
{
    let s = before + key + seq!['='] + value + after;
    let pattern = key + seq!['='];
    let at = before.len() as int;
    assert(s.subrange(at, at + pattern.len()) =~= pattern);
    assert(text::occurs_at(s, pattern, at));
    text::lemma_position(s, pattern, at);
    let rest = s.skip(at + pattern.len());
    assert(rest =~= value + after);
    assert forall|i: int| 0 <= i < value.len() implies !ends_form_value()(#[trigger] rest[i]) by {
        assert(rest[i] == value[i]);
    }
    text::lemma_span(rest, ends_form_value(), value.len() as int);
    assert(rest.take(value.len() as int) =~= value);
}

/// How a member is written: the quotes of its key and of its value, the sign between them,
/// and the gaps around that sign.
pub ghost struct Style {
    pub key_quote: char,
    pub value_quote: char,
    pub sign: char,
    pub gap_before: Seq<char>,
    pub gap_after: Seq<char>,
}

/// Single or double quotes, a colon or an equals sign, and white space alone in the gaps.
pub open spec fn is_style(style: Style) -> bool {
    &&& style.key_quote == '"' || style.key_quote == '\''
    &&& style.value_quote == '"' || style.value_quote == '\''
    &&& style.sign == ':' || style.sign == '='
    &&& is_blank(style.gap_before)
    &&& is_blank(style.gap_after)
}

/// A text that holds a string member, written in this style.
pub open spec fn written(
    before: Seq<char>,
    key: Seq<char>,
    style: Style,
    value: Seq<char>,
    after: Seq<char>,
) -> Seq<char> {
    before + (seq![style.key_quote] + key + seq![style.key_quote]) + style.gap_before
        + seq![style.sign] + style.gap_after + (seq![style.value_quote] + value
        + seq![style.value_quote]) + after
}

/// A text of white space only.
pub open spec fn is_blank(s: Seq<char>) -> bool {
    forall|i: int| 0 <= i < s.len() ==> text::is_white(#[trigger] s[i])
}

/// White space before a text that begins with something else is skipped.
proof fn lemma_blank_is_skipped(blank: Seq<char>, s: Seq<char>)
    requires
        is_blank(blank),
        s.len() > 0,
        !text::is_white(s[0]),
    ensures
        text::trim_start(blank + s) == s,
    decreases blank.len(),
{
    let all = blank + s;
    if blank.len() > 0 {
        assert(all[0] == blank[0]);
        let rest = blank.drop_first();
        assert(is_blank(rest)) by {
            assert forall|i: int| 0 <= i < rest.len() implies text::is_white(
                #[trigger] rest[i],
            ) by {
                assert(rest[i] == blank[i + 1]);
            }
        }
        assert(all.drop_first() =~= rest + s);
        lemma_blank_is_skipped(rest, s);
    } else {
        assert(all =~= s);
    }
}

/// What JSON-like text holds is read back: a string member's value that is not empty and
/// does not hold its own quote comes out whole, in either quotes, after a colon or an equals
/// sign, with any white space around that, if the quoted key does not stand earlier in the
/// text, and for a single-quoted key the double-quoted one nowhere.
pub proof fn law_json_like_value_reads_back(
    before: Seq<char>,
    key: Seq<char>,
    style: Style,
    value: Seq<char>,
    after: Seq<char>,
)
    requires
        is_style(style),
        value.len() > 0,
        forall|i: int| 0 <= i < value.len() ==> #[trigger] value[i] != style.value_quote,
        forall|i: int|
            0 <= i < before.len() ==> !#[trigger] text::occurs_at(
                written(before, key, style, value, after),
                seq![style.key_quote] + key + seq![style.key_quote],
                i,
            ),
        style.key_quote == '\'' ==> !text::occurs(
            written(before, key, style, value, after),
            seq!['"'] + key + seq!['"'],
        ),
    ensures
        json_value(written(before, key, style, value, after), key) == Some(value),
{
    let pattern = seq![style.key_quote] + key + seq![style.key_quote];
    let s = written(before, key, style, value, after);
    let at = before.len() as int;
    assert(s.subrange(at, at + pattern.len()) =~= pattern);
    assert(text::occurs_at(s, pattern, at));
    text::lemma_position(s, pattern, at);
    let quoted = (seq![style.value_quote] + value + seq![style.value_quote]) + after;
    let signed = seq![style.sign] + style.gap_after + quoted;
    let t = s.skip(at + pattern.len());
    assert(t =~= style.gap_before + signed);
    assert(signed[0] == style.sign);
    lemma_blank_is_skipped(style.gap_before, signed);
    assert(signed.skip(1) =~= style.gap_after + quoted);
    assert(quoted[0] == style.value_quote);
    lemma_blank_is_skipped(style.gap_after, quoted);
    assert(after_separator(t) == Some(quoted));
    let rest = quoted.skip(1);
    assert(rest =~= value + seq![style.value_quote] + after);
    assert forall|i: int| 0 <= i < value.len() implies !is_quote(style.value_quote)(
        #[trigger] rest[i],
    ) by {
        assert(rest[i] == value[i]);
    }
    assert(rest[value.len() as int] == style.value_quote);
    text::lemma_span(rest, is_quote(style.value_quote), value.len() as int);
    assert(rest.take(value.len() as int) =~= value);
}

/// A text that holds a string member as JSON writes it, with these gaps around the
/// colon.
pub open spec fn written_as_json(
    before: Seq<char>,
    key: Seq<char>,
    gaps: (Seq<char>, Seq<char>),
    value: Seq<char>,
    after: Seq<char>,
) -> Seq<char> {
    before + (seq!['"'] + key + seq!['"']) + gaps.0 + seq![':'] + gaps.1 + (seq!['"'] + value
        + seq!['"']) + after
}

/// What JSON holds is read back: a string member's value that is not empty and holds
/// no quote comes out whole, with any white space before and after the colon, if the
/// quoted key does not stand earlier in the text.
pub proof fn law_json_value_reads_back(
    before: Seq<char>,
    key: Seq<char>,
    gaps: (Seq<char>, Seq<char>),
    value: Seq<char>,
    after: Seq<char>,
)
    requires
        value.len() > 0,
        forall|i: int| 0 <= i < value.len() ==> #[trigger] value[i] != '"',
        is_blank(gaps.0),
        is_blank(gaps.1),
        forall|i: int|
            0 <= i < before.len() ==> !#[trigger] text::occurs_at(
                written_as_json(before, key, gaps, value, after),
                seq!['"'] + key + seq!['"'],
                i,
            ),
    ensures
        json_value(written_as_json(before, key, gaps, value, after), key) == Some(value),
{
    let style = Style {
        key_quote: '"',
        value_quote: '"',
        sign: ':',
        gap_before: gaps.0,
        gap_after: gaps.1,
    };
    assert(written(before, key, style, value, after) =~= written_as_json(
        before,
        key,
        gaps,
        value,
        after,
    ));
    law_json_like_value_reads_back(before, key, style, value, after);
}

/// A value that comes out of JSON-like text stands there in quotes of one kind, is not empty
/// and does not hold that quote.
pub proof fn law_json_values_are_quoted(s: Seq<char>)
    ensures
        leading_quoted(s) matches Some(value) ==> {
            &&& value.len() > 0
            &&& s[0] == '"' || s[0] == '\''
            &&& s.len() >= value.len() + 2
            &&& s.subrange(1, value.len() as int + 1) == value
            &&& s[value.len() as int + 1] == s[0]
            &&& forall|i: int| 0 <= i < value.len() ==> #[trigger] value[i] != s[0]
        },
{
    if let Some(value) = leading_quoted(s) {
        let rest = s.skip(1);
        let n = text::span(rest, is_quote(s[0]));
        lemma_before_span(rest, is_quote(s[0]));
        lemma_at_span(rest, is_quote(s[0]));
        assert(s.subrange(1, value.len() as int + 1) =~= value);
        assert(rest[n as int] == s[n as int + 1]);
        assert forall|i: int| 0 <= i < value.len() implies #[trigger] value[i] != s[0] by {
            assert(value[i] == rest[i]);
            assert(!is_quote(s[0])(rest[i]));
        }
    }
}

/// The character at `span`, if there is one, satisfies `stop`.
proof fn lemma_at_span(s: Seq<char>, stop: spec_fn(char) -> bool)
    ensures
        text::span(s, stop) < s.len() ==> stop(s[text::span(s, stop) as int]),
    decreases s.len(),
{
    if s.len() > 0 && !stop(s[0]) {
        lemma_at_span(s.drop_first(), stop);
    }
}

/// A form wins over JSON, and JSON is looked at only where the form has nothing.
pub proof fn law_a_form_wins_over_json(s: Seq<char>, key: Seq<char>)
    ensures
        form_value(s, key) is Some ==> form_or_json(s, key) == form_value(s, key),
        form_value(s, key) is None ==> form_or_json(s, key) == json_value(s, key),
{
}

} // verus!
