//! Standard base64 (RFC 4648 alphabet, canonical padding) through the
//! `base64` crate.

use base64::{engine::general_purpose::STANDARD, Engine};
use vstd::prelude::*;

verus! {

/// The character of the standard alphabet for a 6-bit value.
pub open spec fn base64_symbol(value: int) -> char {
    if value < 26 {
        (65 + value) as char
    } else if value < 52 {
        (71 + value) as char
    } else if value < 62 {
        (value - 4) as char
    } else if value == 62 {
        '+'
    } else {
        '/'
    }
}

/// Padded standard base64 (RFC 4648, section 4): each group of three bytes
/// becomes four symbols, and a final group of one or two bytes is completed
/// with `=` to four characters.
pub open spec fn base64_encoding(bytes: Seq<u8>) -> Seq<char>
    decreases bytes.len(),
{
    if bytes.len() == 0 {
        Seq::empty()
    } else if bytes.len() == 1 {
        seq![
            base64_symbol((bytes[0] as int) / 4),
            base64_symbol(((bytes[0] as int) % 4) * 16),
            '=',
            '=',
        ]
    } else if bytes.len() == 2 {
        seq![
            base64_symbol((bytes[0] as int) / 4),
            base64_symbol(((bytes[0] as int) % 4) * 16 + (bytes[1] as int) / 16),
            base64_symbol(((bytes[1] as int) % 16) * 4),
            '=',
        ]
    } else {
        seq![
            base64_symbol((bytes[0] as int) / 4),
            base64_symbol(((bytes[0] as int) % 4) * 16 + (bytes[1] as int) / 16),
            base64_symbol(((bytes[1] as int) % 16) * 4 + (bytes[2] as int) / 64),
            base64_symbol((bytes[2] as int) % 64),
        ] + base64_encoding(bytes.subrange(3, bytes.len() as int))
    }
}

/// A text is canonical base64 when it is the encoding of some bytes.
pub open spec fn is_base64(text: Seq<char>) -> bool {
    exists|bytes: Seq<u8>| base64_encoding(bytes) == text
}

/// The bytes that a canonical base64 text encodes.
pub open spec fn base64_decoding(text: Seq<char>) -> Seq<u8>
    recommends
        is_base64(text),
{
    choose|bytes: Seq<u8>| base64_encoding(bytes) == text
}

/// The description that the `Display` implementation of `base64::DecodeError`
/// gives of the error that `STANDARD.decode` reports for a text.
pub uninterp spec fn base64_decode_error(text: Seq<char>) -> Seq<char>;

/// Calls `STANDARD.encode`, which writes padded standard base64. Inputs are
/// bounded so that the crate's computation of the encoded length cannot
/// overflow.
#[verifier::external_body]
pub(crate) fn base64_encode(bytes: &[u8]) -> (text: String)
    requires
        bytes@.len() <= usize::MAX / 2,
    ensures
        text@ == base64_encoding(bytes@),
{
    STANDARD.encode(bytes)
}

/// Calls `STANDARD.decode` and renders a decoding error with its `Display`
/// implementation. The `STANDARD` engine requires canonical padding and
/// rejects non-zero trailing bits, so it accepts exactly the texts that its
/// encoder produces and gives back the encoded bytes.
#[verifier::external_body]
pub(crate) fn base64_decode(text: &str) -> (decoded: Result<Vec<u8>, String>)
    ensures
        match decoded {
            Ok(bytes) => base64_encoding(bytes@) == text@,
            Err(description) => !is_base64(text@) && description@ == base64_decode_error(text@),
        },
{
    match STANDARD.decode(text) {
        Ok(bytes) => Ok(bytes),
        Err(error) => Err(format!("{}", error)),
    }
}

proof fn lemma_symbol_injective(v: int, w: int)
    requires
        0 <= v < 64,
        0 <= w < 64,
        base64_symbol(v) == base64_symbol(w),
    ensures
        v == w,
{
}

proof fn lemma_symbol_is_not_padding(v: int)
    requires
        0 <= v < 64,
    ensures
        base64_symbol(v) != '=',
{
}

proof fn lemma_encoding_length(bytes: Seq<u8>)
    ensures
        bytes.len() == 0 <==> base64_encoding(bytes).len() == 0,
        bytes.len() > 0 ==> base64_encoding(bytes).len() >= 4,
    decreases bytes.len(),
{
    if bytes.len() >= 3 {
        lemma_encoding_length(bytes.subrange(3, bytes.len() as int));
    }
}

/// Different byte strings have different encodings.
pub proof fn lemma_encoding_injective(a: Seq<u8>, b: Seq<u8>)
    requires
        base64_encoding(a) == base64_encoding(b),
    ensures
        a == b,
    decreases a.len(),
{
    let e = base64_encoding(a);
    lemma_encoding_length(a);
    lemma_encoding_length(b);
    if a.len() == 0 {
        assert(b.len() == 0);
        assert(a =~= b);
        return;
    }
    let a0 = a[0] as int;
    let b0 = b[0] as int;
    assert(base64_encoding(a)[0] == base64_symbol(a0 / 4));
    assert(base64_encoding(b)[0] == base64_symbol(b0 / 4));
    lemma_symbol_injective(a0 / 4, b0 / 4);
    if a.len() == 1 || b.len() == 1 {
        if a.len() != 1 {
            lemma_symbol_is_not_padding(
                if a.len() == 2 { ((a[1] as int) % 16) * 4 } else { ((a[1] as int) % 16) * 4 + (a[2] as int) / 64 },
            );
        }
        if b.len() != 1 {
            lemma_symbol_is_not_padding(
                if b.len() == 2 { ((b[1] as int) % 16) * 4 } else { ((b[1] as int) % 16) * 4 + (b[2] as int) / 64 },
            );
        }
        assert(a.len() == 1 && b.len() == 1);
        lemma_symbol_injective((a0 % 4) * 16, (b0 % 4) * 16);
        assert(a =~= b);
        return;
    }
    let a1 = a[1] as int;
    let b1 = b[1] as int;
    assert(base64_encoding(a)[1] == base64_symbol((a0 % 4) * 16 + a1 / 16));
    assert(base64_encoding(b)[1] == base64_symbol((b0 % 4) * 16 + b1 / 16));
    lemma_symbol_injective((a0 % 4) * 16 + a1 / 16, (b0 % 4) * 16 + b1 / 16);
    assert(a0 == b0);
    assert(a1 / 16 == b1 / 16);
    if a.len() == 2 || b.len() == 2 {
        if a.len() != 2 {
            lemma_symbol_is_not_padding((a[2] as int) % 64);
        }
        if b.len() != 2 {
            lemma_symbol_is_not_padding((b[2] as int) % 64);
        }
        assert(a.len() == 2 && b.len() == 2);
        lemma_symbol_injective((a1 % 16) * 4, (b1 % 16) * 4);
        assert(a =~= b);
        return;
    }
    let a2 = a[2] as int;
    let b2 = b[2] as int;
    assert(base64_encoding(a)[2] == base64_symbol((a1 % 16) * 4 + a2 / 64));
    assert(base64_encoding(b)[2] == base64_symbol((b1 % 16) * 4 + b2 / 64));
    assert(base64_encoding(a)[3] == base64_symbol(a2 % 64));
    assert(base64_encoding(b)[3] == base64_symbol(b2 % 64));
    lemma_symbol_injective((a1 % 16) * 4 + a2 / 64, (b1 % 16) * 4 + b2 / 64);
    lemma_symbol_injective(a2 % 64, b2 % 64);
    let ta = a.subrange(3, a.len() as int);
    let tb = b.subrange(3, b.len() as int);
    assert(base64_encoding(ta) =~= e.subrange(4, e.len() as int));
    assert(base64_encoding(tb) =~= e.subrange(4, e.len() as int));
    lemma_encoding_injective(ta, tb);
    assert(a1 % 16 == b1 % 16 && a2 / 64 == b2 / 64) by (nonlinear_arith)
        requires
            (a1 % 16) * 4 + a2 / 64 == (b1 % 16) * 4 + b2 / 64,
            0 <= a2 < 256,
            0 <= b2 < 256,
            0 <= a1,
            0 <= b1,
    ;
    assert(a1 == b1);
    assert(a2 == b2);
    assert forall|i: int| 0 <= i < a.len() implies a[i] == b[i] by {
        if i >= 3 {
            assert(a[i] == ta[i - 3]);
            assert(b[i] == tb[i - 3]);
        }
    }
    assert(a =~= b);
}

/// Decoding inverts encoding: the encoding of any bytes is canonical base64,
/// and it decodes to exactly those bytes.
pub proof fn lemma_decoding_inverts_encoding(bytes: Seq<u8>)
    ensures
        is_base64(base64_encoding(bytes)),
        base64_decoding(base64_encoding(bytes)) == bytes,
{
    let text = base64_encoding(bytes);
    assert(base64_encoding(bytes) == text);
    let chosen = base64_decoding(text);
    lemma_encoding_injective(chosen, bytes);
}

} // verus!
