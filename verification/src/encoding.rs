//! Base64 and SHA-256.

use base64::engine::general_purpose::{STANDARD, URL_SAFE, URL_SAFE_NO_PAD};
use base64::Engine;
use sha2::Digest;
use vstd::prelude::*;

verus! {

/// The bytes of a list, where there is one.
pub open spec fn bytes_of(plain: Option<Vec<u8>>) -> Option<Seq<u8>> {
    match plain {
        Some(bytes) => Some(bytes@),
        None => None,
    }
}

// ---------------------------------------------------------------------------
// Base64 (RFC 4648)
// ---------------------------------------------------------------------------

/// Byte `k` of `bytes`, and zero past its end.
pub open spec fn byte_or_zero(bytes: Seq<u8>, k: int) -> int {
    if 0 <= k < bytes.len() {
        bytes[k] as int
    } else {
        0
    }
}

/// The `i`-th group of six bits of `bytes`, read from its most significant bit
/// on and filled up with zero bits.
pub open spec fn sextet(bytes: Seq<u8>, i: int) -> int {
    let k = 3 * (i / 4);
    if i % 4 == 0 {
        byte_or_zero(bytes, k) / 4
    } else if i % 4 == 1 {
        byte_or_zero(bytes, k) % 4 * 16 + byte_or_zero(bytes, k + 1) / 16
    } else if i % 4 == 2 {
        byte_or_zero(bytes, k + 1) % 16 * 4 + byte_or_zero(bytes, k + 2) / 64
    } else {
        byte_or_zero(bytes, k + 2) % 64
    }
}

/// The symbol of a value below 64; the last two differ between alphabets.
pub open spec fn symbol(v: int, c62: char, c63: char) -> char {
    if v < 26 {
        (65 + v) as char
    } else if v < 52 {
        (71 + v) as char
    } else if v < 62 {
        (v - 4) as char
    } else if v == 62 {
        c62
    } else {
        c63
    }
}

/// `bytes` in base64 without padding, over the alphabet that ends in `c62`, `c63`.
pub open spec fn unpadded(bytes: Seq<u8>, c62: char, c63: char) -> Seq<char> {
    Seq::new(
        ((bytes.len() * 4 + 2) / 3) as nat,
        |i: int| symbol(sextet(bytes, i), c62, c63),
    )
}

/// `s` followed by as many `=` as bring its length to a multiple of four.
pub open spec fn padded(s: Seq<char>) -> Seq<char> {
    s + Seq::new(((4 - s.len() % 4) % 4) as nat, |i: int| '=')
}

/// `bytes` in the URL-safe alphabet, without padding.
pub open spec fn base64url(bytes: Seq<u8>) -> Seq<char> {
    unpadded(bytes, '-', '_')
}

/// `bytes` in the URL-safe alphabet, with padding.
pub open spec fn base64url_padded(bytes: Seq<u8>) -> Seq<char> {
    padded(base64url(bytes))
}

/// `bytes` in the standard alphabet, with padding.
pub open spec fn base64_standard(bytes: Seq<u8>) -> Seq<char> {
    padded(unpadded(bytes, '+', '/'))
}

/// `Engine::encode` of base64's `URL_SAFE_NO_PAD`: six bits to a symbol of the
/// URL-safe alphabet, no padding. The bound keeps the size of the result, four
/// symbols for three bytes, within what a `String` can hold.
#[verifier::external_body]
pub(crate) fn encode_url_safe_no_pad(bytes: &[u8]) -> (text: String)
    requires
        bytes@.len() <= usize::MAX / 4,
    ensures
        text@ == base64url(bytes@),
{
    URL_SAFE_NO_PAD.encode(bytes)
}

/// `Engine::encode` of base64's `STANDARD`: six bits to a symbol of the standard
/// alphabet, padded with `=` to a multiple of four. The bound keeps the size of
/// the result within what a `String` can hold.
#[verifier::external_body]
pub(crate) fn encode_standard(bytes: &[u8]) -> (text: String)
    requires
        bytes@.len() <= usize::MAX / 4,
    ensures
        text@ == base64_standard(bytes@),
{
    STANDARD.encode(bytes)
}

/// `Engine::decode` of base64's `URL_SAFE_NO_PAD`: the bytes that encode to
/// exactly this text. The engine refuses padding, foreign symbols and stray
/// bits in the last symbol, so a text that is no encoding is refused.
#[verifier::external_body]
pub(crate) fn decode_url_safe_no_pad(text: &str) -> (bytes: Option<Vec<u8>>)
    ensures
        match bytes {
            Some(b) => text@ == base64url(b@),
            None => forall|b: Seq<u8>| text@ != #[trigger] base64url(b),
        },
{
    URL_SAFE_NO_PAD.decode(text).ok()
}

/// `Engine::decode` of base64's `URL_SAFE`: the bytes that encode to exactly
/// this text, which has to carry its canonical padding.
#[verifier::external_body]
pub(crate) fn decode_url_safe(text: &str) -> (bytes: Option<Vec<u8>>)
    ensures
        match bytes {
            Some(b) => text@ == base64url_padded(b@),
            None => forall|b: Seq<u8>| text@ != #[trigger] base64url_padded(b),
        },
{
    URL_SAFE.decode(text).ok()
}

/// Two values below 64 with the same symbol are the same.
proof fn lemma_symbol_injective(v: int, w: int)
    requires
        0 <= v < 64,
        0 <= w < 64,
        symbol(v, '-', '_') == symbol(w, '-', '_'),
    ensures
        v == w,
{
}

/// A group of six bits is below 64.
pub proof fn lemma_sextet_range(bytes: Seq<u8>, i: int)
    requires
        0 <= i,
    ensures
        0 <= sextet(bytes, i) < 64,
{
}

/// A byte is made of the two groups of six bits that it reaches into.
proof fn lemma_byte_from_sextets(bytes: Seq<u8>, k: int)
    requires
        0 <= k < bytes.len(),
    ensures
        ({
            let i = 4 * (k / 3) + k % 3;
            &&& 0 <= i
            &&& i + 1 < (bytes.len() * 4 + 2) / 3
            &&& bytes[k] as int == if k % 3 == 0 {
                sextet(bytes, i) * 4 + sextet(bytes, i + 1) / 16
            } else if k % 3 == 1 {
                sextet(bytes, i) % 16 * 16 + sextet(bytes, i + 1) / 4
            } else {
                sextet(bytes, i) % 4 * 64 + sextet(bytes, i + 1)
            }
        }),
{
    let i = 4 * (k / 3) + k % 3;
    assert(i / 4 == k / 3);
    assert((i + 1) / 4 == k / 3);
    assert(i % 4 == k % 3);
    assert((i + 1) % 4 == k % 3 + 1);
}

/// Different bytes have different encodings, so an encoding reads back as the
/// bytes that it was made from.
pub proof fn law_base64url_injective(a: Seq<u8>, b: Seq<u8>)
    ensures
        base64url(a) == base64url(b) ==> a == b,
        base64url_padded(a) == base64url_padded(b) ==> a == b,
{
    if base64url(a) == base64url(b) {
        lemma_base64url_injective(a, b);
    }
    if base64url_padded(a) == base64url_padded(b) {
        let x = base64url(a);
        let y = base64url(b);
        let p = base64url_padded(a);
        lemma_no_pad_symbol(a);
        lemma_no_pad_symbol(b);
        if x.len() < y.len() {
            assert(p[x.len() as int] == '=');
            assert(p[x.len() as int] == y[x.len() as int]);
        } else if y.len() < x.len() {
            assert(base64url_padded(b)[y.len() as int] == '=');
            assert(base64url_padded(b)[y.len() as int] == x[y.len() as int]);
        }
        assert(x == p.take(x.len() as int));
        assert(y == base64url_padded(b).take(y.len() as int));
        lemma_base64url_injective(a, b);
    }
}

/// No encoding holds a dot, which separates the segments of a token.
pub proof fn lemma_symbols(bytes: Seq<u8>)
    ensures
        forall|i: int| 0 <= i < base64url(bytes).len() ==> #[trigger] base64url(bytes)[i] != '.',
        forall|i: int|
            0 <= i < base64url_padded(bytes).len() ==> #[trigger] base64url_padded(bytes)[i] != '.',
{
    assert forall|i: int| 0 <= i < base64url(bytes).len() implies #[trigger] base64url(bytes)[i]
        != '.' by {
        lemma_sextet_range(bytes, i);
    }
    assert forall|i: int| 0 <= i < base64url_padded(bytes).len() implies #[trigger] base64url_padded(
        bytes,
    )[i] != '.' by {
        if i < base64url(bytes).len() {
            assert(base64url_padded(bytes)[i] == base64url(bytes)[i]);
        }
    }
}

/// No symbol of the alphabet is the padding character.
proof fn lemma_no_pad_symbol(bytes: Seq<u8>)
    ensures
        forall|i: int| 0 <= i < base64url(bytes).len() ==> #[trigger] base64url(bytes)[i] != '=',
{
    assert forall|i: int| 0 <= i < base64url(bytes).len() implies #[trigger] base64url(bytes)[i]
        != '=' by {
        lemma_sextet_range(bytes, i);
    }
}

/// Unpadded encodings determine their bytes.
proof fn lemma_base64url_injective(a: Seq<u8>, b: Seq<u8>)
    requires
        base64url(a) == base64url(b),
    ensures
        a == b,
{
    assert(a.len() == b.len()) by {
        assert(base64url(a).len() == (a.len() * 4 + 2) / 3);
        assert(base64url(b).len() == (b.len() * 4 + 2) / 3);
    }
    assert forall|i: int| 0 <= i < base64url(a).len() implies sextet(a, i) == sextet(b, i) by {
        assert(base64url(a)[i] == symbol(sextet(a, i), '-', '_'));
        assert(base64url(b)[i] == symbol(sextet(b, i), '-', '_'));
        lemma_sextet_range(a, i);
        lemma_sextet_range(b, i);
        lemma_symbol_injective(sextet(a, i), sextet(b, i));
    }
    assert forall|k: int| 0 <= k < a.len() implies a[k] == b[k] by {
        lemma_byte_from_sextets(a, k);
        lemma_byte_from_sextets(b, k);
    }
    assert(a =~= b);
}

/// The bytes that `text` encodes in the URL-safe alphabet: without padding, or
/// else with it.
pub open spec fn base64url_bytes(text: Seq<char>) -> Option<Seq<u8>> {
    if exists|b: Seq<u8>| text == #[trigger] base64url(b) {
        Some(choose|b: Seq<u8>| text == #[trigger] base64url(b))
    } else if exists|b: Seq<u8>| text == #[trigger] base64url_padded(b) {
        Some(choose|b: Seq<u8>| text == #[trigger] base64url_padded(b))
    } else {
        None
    }
}

/// The bytes that `text` encodes in the URL-safe alphabet, with or without
/// padding.
pub fn decode_url_text(text: &str) -> (bytes: Option<Vec<u8>>)
    ensures
        match bytes {
            Some(b) => base64url_bytes(text@) == Some(b@),
            None => base64url_bytes(text@) is None,
        },
{
    match decode_url_safe_no_pad(text) {
        Some(bytes) => {
            proof {
                law_base64url_injective(
                    bytes@,
                    choose|b: Seq<u8>| text@ == #[trigger] base64url(b),
                );
            }
            Some(bytes)
        },
        None => match decode_url_safe(text) {
            Some(bytes) => {
                proof {
                    law_base64url_injective(
                        bytes@,
                        choose|b: Seq<u8>| text@ == #[trigger] base64url_padded(b),
                    );
                }
                Some(bytes)
            },
            None => None,
        },
    }
}

/// What was encoded, with or without padding, decodes to the bytes it was made
/// from.
pub proof fn law_base64url_reads_back(bytes: Seq<u8>)
    ensures
        base64url_bytes(base64url(bytes)) == Some(bytes),
        base64url_bytes(base64url_padded(bytes)) == Some(bytes),
{
    let plain = base64url(bytes);
    law_base64url_injective(bytes, choose|b: Seq<u8>| plain == #[trigger] base64url(b));
    let wide = base64url_padded(bytes);
    if exists|b: Seq<u8>| wide == #[trigger] base64url(b) {
        let other = choose|b: Seq<u8>| wide == #[trigger] base64url(b);
        lemma_no_pad_symbol(other);
        if plain.len() % 4 != 0 {
            assert(wide[plain.len() as int] == '=');
        }
        assert(wide == plain);
        law_base64url_injective(bytes, other);
    } else {
        law_base64url_injective(bytes, choose|b: Seq<u8>| wide == #[trigger] base64url_padded(b));
    }
}

// ---------------------------------------------------------------------------
// SHA-256
// ---------------------------------------------------------------------------

/// The SHA-256 digest of `bytes`.
pub uninterp spec fn sha256(bytes: Seq<u8>) -> Seq<u8>;

/// `Sha256::digest` of sha2: the 32 bytes of the digest. What they are is named
/// by `sha256`, not spelled out.
#[verifier::external_body]
pub(crate) fn sha256_digest(bytes: &[u8]) -> (digest: Vec<u8>)
    ensures
        digest@ == sha256(bytes@),
        digest@.len() == 32,
{
    sha2::Sha256::digest(bytes).to_vec()
}

} // verus!
