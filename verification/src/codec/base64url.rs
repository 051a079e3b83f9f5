//! Base64 with the URL-safe alphabet and `=` padding: the text form of a
//! page token.

use vstd::prelude::*;

verus! {

/// The character for a six-bit value: `A`-`Z`, `a`-`z`, `0`-`9`, `-`, `_`.
pub open spec fn symbol(v: int) -> char {
    if v < 26 {
        (v + 65) as u8 as char
    } else if v < 52 {
        (v + 71) as u8 as char
    } else if v < 62 {
        (v - 4) as u8 as char
    } else if v == 62 {
        '-'
    } else {
        '_'
    }
}

/// The padded URL-safe base64 text of `bytes`: four characters for every
/// three bytes, the last group filled up with `=`.
pub open spec fn base64url(bytes: Seq<u8>) -> Seq<char>
    decreases bytes.len(),
{
    if bytes.len() == 0 {
        Seq::empty()
    } else if bytes.len() == 1 {
        let b0 = bytes[0] as int;
        seq![symbol(b0 / 4), symbol(b0 % 4 * 16), '=', '=']
    } else if bytes.len() == 2 {
        let b0 = bytes[0] as int;
        let b1 = bytes[1] as int;
        seq![symbol(b0 / 4), symbol(b0 % 4 * 16 + b1 / 16), symbol(b1 % 16 * 4), '=']
    } else {
        let b0 = bytes[0] as int;
        let b1 = bytes[1] as int;
        let b2 = bytes[2] as int;
        seq![
            symbol(b0 / 4),
            symbol(b0 % 4 * 16 + b1 / 16),
            symbol(b1 % 16 * 4 + b2 / 64),
            symbol(b2 % 64),
        ] + base64url(bytes.skip(3))
    }
}

/// Whether `text` is the base64 text of some bytes.
pub open spec fn is_base64url(text: Seq<char>) -> bool {
    exists|bytes: Seq<u8>| #[trigger] base64url(bytes) == text
}

/// The bytes that `text` is the base64 text of, where it is one.
pub open spec fn base64url_bytes(text: Seq<char>) -> Seq<u8> {
    choose|bytes: Seq<u8>| #[trigger] base64url(bytes) == text
}

/// Different six-bit values have different characters, none of them `=`.
pub proof fn lemma_symbol_injective(a: int, b: int)
    requires
        0 <= a < 64,
        0 <= b < 64,
    ensures
        symbol(a) != '=',
        symbol(a) == symbol(b) ==> a == b,
{
}

/// No two byte strings have the same base64 text.
pub proof fn lemma_base64url_injective(a: Seq<u8>, b: Seq<u8>)
    requires
        base64url(a) == base64url(b),
    ensures
        a == b,
    decreases a.len(),
{
    let ta = base64url(a);
    let tb = base64url(b);
    if a.len() == 0 {
        if b.len() > 0 {
            assert(tb.len() >= 4);
        }
        assert(a =~= b);
    } else {
        assert(ta.len() >= 4);
        assert(b.len() > 0);
        let a0 = a[0] as int;
        let b0 = b[0] as int;
        lemma_symbol_injective(a0 / 4, b0 / 4);
        if a.len() == 1 {
            assert(ta[2] == '=');
            if b.len() >= 2 {
                let b1 = b[1] as int;
                let low = if b.len() >= 3 { b[2] as int / 64 } else { 0 };
                lemma_symbol_injective(b1 % 16 * 4 + low, 0);
                assert(tb[2] != '=');
            }
            lemma_symbol_injective(a0 % 4 * 16, b0 % 4 * 16);
            assert(ta[0] == tb[0] && ta[1] == tb[1]);
            assert(a0 == b0);
            assert(a =~= b);
        } else if a.len() == 2 {
            let a1 = a[1] as int;
            lemma_symbol_injective(a1 % 16 * 4, 0);
            assert(ta[2] != '=' && ta[3] == '=');
            if b.len() >= 3 {
                lemma_symbol_injective(b[2] as int % 64, 0);
                assert(tb[3] != '=');
            }
            if b.len() == 1 {
                assert(tb[2] == '=');
            }
            assert(b.len() == 2);
            let b1 = b[1] as int;
            lemma_symbol_injective(a0 % 4 * 16 + a1 / 16, b0 % 4 * 16 + b1 / 16);
            lemma_symbol_injective(a1 % 16 * 4, b1 % 16 * 4);
            assert(ta[0] == tb[0] && ta[1] == tb[1] && ta[2] == tb[2]);
            assert(a0 == b0 && a1 == b1);
            assert(a =~= b);
        } else {
            let a1 = a[1] as int;
            let a2 = a[2] as int;
            lemma_symbol_injective(a2 % 64, 0);
            assert(ta[3] != '=');
            if b.len() < 3 {
                assert(tb[3] == '=');
            }
            assert(b.len() >= 3);
            let b1 = b[1] as int;
            let b2 = b[2] as int;
            lemma_symbol_injective(a0 % 4 * 16 + a1 / 16, b0 % 4 * 16 + b1 / 16);
            lemma_symbol_injective(a1 % 16 * 4 + a2 / 64, b1 % 16 * 4 + b2 / 64);
            lemma_symbol_injective(a2 % 64, b2 % 64);
            assert(ta[0] == tb[0] && ta[1] == tb[1] && ta[2] == tb[2] && ta[3] == tb[3]);
            assert(a0 == b0 && a1 == b1 && a2 == b2);
            assert(ta.skip(4) =~= base64url(a.skip(3)));
            assert(tb.skip(4) =~= base64url(b.skip(3)));
            lemma_base64url_injective(a.skip(3), b.skip(3));
            assert(a.skip(3).len() == b.skip(3).len());
            assert forall|i: int| 0 <= i < a.len() implies a[i] == b[i] by {
                if i >= 3 {
                    assert(a[i] == a.skip(3)[i - 3]);
                    assert(b[i] == b.skip(3)[i - 3]);
                }
            }
            assert(a =~= b);
        }
    }
}

/// Text made from bytes is base64 text, and of those bytes only.
pub proof fn lemma_base64url_bytes(bytes: Seq<u8>)
    ensures
        is_base64url(base64url(bytes)),
        base64url_bytes(base64url(bytes)) == bytes,
{
    lemma_base64url_injective(base64url_bytes(base64url(bytes)), bytes);
}

/// `Engine::encode` of base64's `URL_SAFE` engine: the padded URL-safe text
/// of the bytes. The call panics when the text's length does not fit a
/// `usize`, which the `requires` rules out.
#[verifier::external_body]
pub(crate) fn encode_text(bytes: &[u8]) -> (text: String)
    requires
        4 * (bytes@.len() / 3) + 4 <= usize::MAX,
    ensures
        text@ == base64url(bytes@),
{
    base64::Engine::encode(&base64::engine::general_purpose::URL_SAFE, bytes)
}

/// `Engine::decode` of the same engine, which asks for canonical padding and
/// for unused trailing bits to be zero: it gives bytes back for the text that
/// `encode` writes for them, and fails for every other text.
#[verifier::external_body]
pub(crate) fn decode_text(text: &str) -> (bytes: Option<Vec<u8>>)
    ensures
        match bytes {
            Some(b) => base64url(b@) == text@,
            None => !is_base64url(text@),
        },
{
    base64::Engine::decode(&base64::engine::general_purpose::URL_SAFE, text).ok()
}

} // verus!
