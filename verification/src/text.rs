//! String encoding and ownership transfer.
//!
//! Text crosses the boundary either as a zero-terminated byte sequence with
//! no embedded zero byte (ownership transferred, released through one paired
//! release function) or as a length-prefixed byte sequence that the caller
//! retains. Incoming bytes are decoded as UTF-8 with invalid sequences
//! replaced by U+FFFD: decoding is total and deterministic, never an error.

use vstd::prelude::*;
use vstd::utf8::*;
use crate::handle::HandleStore;

verus! {

/// The character substituted for each maximal ill-formed subpart of the
/// input.
pub open spec fn replacement_char() -> char {
    '\u{fffd}'
}

/// True when `b2` may follow the lead byte `b` as the second byte of some
/// valid scalar encoding. The admissible range is narrower than the
/// continuation-byte form for the lead bytes whose sequences could
/// otherwise be overlong, encode a surrogate, or exceed the last scalar
/// value.
pub open spec fn valid_second_byte(b: u8, b2: u8) -> bool {
    if 0xC2 <= b && b <= 0xDF {
        is_continuation_byte(b2)
    } else if b == 0xE0 {
        0xA0 <= b2 && b2 <= 0xBF
    } else if 0xE1 <= b && b <= 0xEC {
        is_continuation_byte(b2)
    } else if b == 0xED {
        0x80 <= b2 && b2 <= 0x9F
    } else if 0xEE <= b && b <= 0xEF {
        is_continuation_byte(b2)
    } else if b == 0xF0 {
        0x90 <= b2 && b2 <= 0xBF
    } else if 0xF1 <= b && b <= 0xF3 {
        is_continuation_byte(b2)
    } else if b == 0xF4 {
        0x80 <= b2 && b2 <= 0x8F
    } else {
        false
    }
}

/// The length of the maximal subpart of an ill-formed sequence at the
/// start of `bytes`: the lead byte together with the longest run of
/// following bytes that could still have begun a valid scalar encoding.
/// One replacement character stands for exactly this many bytes.
pub open spec fn invalid_prefix_len(bytes: Seq<u8>) -> int
    recommends
        bytes.len() > 0,
        !valid_first_scalar(bytes),
{
    if bytes.len() >= 2 && valid_second_byte(bytes[0], bytes[1]) {
        if 0xF0 <= bytes[0] && bytes.len() >= 3 && is_continuation_byte(bytes[2]) {
            3
        } else if 0xE0 <= bytes[0] {
            2
        } else {
            1
        }
    } else {
        1
    }
}

/// Total UTF-8 decoding with the substitution of maximal subparts: each
/// well-formed scalar encoding yields its character, and each maximal
/// ill-formed subpart — a lone invalid byte, or a truncated sequence whose
/// bytes could still have begun a valid encoding — yields one replacement
/// character. Defined for every byte sequence.
pub open spec fn lossy_decode(bytes: Seq<u8>) -> Seq<char>
    decreases bytes.len(),
{
    if bytes.len() == 0 {
        seq![]
    } else if valid_first_scalar(bytes) {
        seq![decode_first_scalar(bytes) as char] + lossy_decode(pop_first_scalar(bytes))
    } else {
        seq![replacement_char()] + lossy_decode(bytes.skip(invalid_prefix_len(bytes)))
    }
}

/// On valid UTF-8 input, lossy decoding never substitutes anything: it
/// agrees with exact UTF-8 decoding.
pub proof fn lemma_lossy_decode_valid_utf8(bytes: Seq<u8>)
    requires
        valid_utf8(bytes),
    ensures
        lossy_decode(bytes) == decode_utf8(bytes),
    decreases bytes.len(),
{
    if bytes.len() != 0 {
        lemma_lossy_decode_valid_utf8(pop_first_scalar(bytes));
    }
}

/// Lossy decoding is a left inverse of UTF-8 encoding: encoding any text
/// and decoding the bytes yields the original text unchanged.
pub proof fn lemma_text_round_trip(text: Seq<char>)
    ensures
        lossy_decode(encode_utf8(text)) == text,
{
    encode_utf8_valid_utf8(text);
    lemma_lossy_decode_valid_utf8(encode_utf8(text));
    encode_utf8_decode_utf8(text);
}

/// Encoding distributes over concatenation of texts.
pub proof fn lemma_encode_utf8_concat(a: Seq<char>, b: Seq<char>)
    ensures
        encode_utf8(a + b) == encode_utf8(a) + encode_utf8(b),
    decreases a.len(),
{
    if a.len() == 0 {
        assert(a + b =~= b);
        assert(encode_utf8(a) + encode_utf8(b) =~= encode_utf8(b));
    } else {
        assert((a + b).drop_first() =~= a.drop_first() + b);
        lemma_encode_utf8_concat(a.drop_first(), b);
        assert(encode_utf8(a + b) =~= encode_utf8(a) + encode_utf8(b));
    }
}

/// Encodes text as UTF-8 bytes, the length-prefixed boundary form: the
/// bytes are copied verbatim with no terminator and the caller retains
/// ownership of its buffer.
pub fn encode_text(text: &Vec<char>) -> (bytes: Vec<u8>)
    ensures
        bytes@ == encode_utf8(text@),
{
    let mut bytes: Vec<u8> = Vec::new();
    let mut i: usize = 0;
    while i < text.len()
        invariant
            i <= text@.len(),
            bytes@ == encode_utf8(text@.take(i as int)),
        decreases text@.len() - i,
    {
        let c = text[i];
        proof {
            char_is_scalar(c);
            assert(text@.take(i + 1) =~= text@.take(i as int) + seq![c]);
            lemma_encode_utf8_concat(text@.take(i as int), seq![c]);
            assert(encode_utf8(seq![c]) =~= encode_scalar(c as u32)) by {
                reveal_with_fuel(encode_utf8, 2);
                assert(seq![c].drop_first() =~= Seq::<char>::empty());
            }
        }
        let u = c as u32;
        if u <= 0x7F {
            bytes.push((u & 0x7F) as u8);
        } else if u <= 0x7FF {
            bytes.push(0xC0 | ((u >> 6) & 0x1F) as u8);
            bytes.push(0x80 | (u & 0x3F) as u8);
        } else if u <= 0xFFFF {
            bytes.push(0xE0 | ((u >> 12) & 0x0F) as u8);
            bytes.push(0x80 | ((u >> 6) & 0x3F) as u8);
            bytes.push(0x80 | (u & 0x3F) as u8);
        } else {
            bytes.push(0xF0 | ((u >> 18) & 0x7) as u8);
            bytes.push(0x80 | ((u >> 12) & 0x3F) as u8);
            bytes.push(0x80 | ((u >> 6) & 0x3F) as u8);
            bytes.push(0x80 | (u & 0x3F) as u8);
        }
        proof {
            assert(bytes@ =~= encode_utf8(text@.take(i as int)) + encode_scalar(c as u32));
        }
        i = i + 1;
    }
    proof {
        assert(text@.take(text@.len() as int) =~= text@);
    }
    bytes
}

/// Relies on `char::from_u32`: every Unicode scalar value (at most 0x10FFFF
/// and outside the surrogate range) names exactly one character.
#[verifier::external_body]
fn char_from_scalar(u: u32) -> (c: char)
    requires
        is_scalar(u),
    ensures
        c == u as char,
{
    char::from_u32(u).unwrap()
}

/// Whether `b2` may follow the lead byte `b`, computed.
fn second_byte_ok(b: u8, b2: u8) -> (r: bool)
    ensures
        r == valid_second_byte(b, b2),
{
    if 0xC2 <= b && b <= 0xDF {
        0x80 <= b2 && b2 <= 0xBF
    } else if b == 0xE0 {
        0xA0 <= b2 && b2 <= 0xBF
    } else if 0xE1 <= b && b <= 0xEC {
        0x80 <= b2 && b2 <= 0xBF
    } else if b == 0xED {
        0x80 <= b2 && b2 <= 0x9F
    } else if 0xEE <= b && b <= 0xEF {
        0x80 <= b2 && b2 <= 0xBF
    } else if b == 0xF0 {
        0x90 <= b2 && b2 <= 0xBF
    } else if 0xF1 <= b && b <= 0xF3 {
        0x80 <= b2 && b2 <= 0xBF
    } else if b == 0xF4 {
        0x80 <= b2 && b2 <= 0x8F
    } else {
        false
    }
}

/// Decodes bytes as UTF-8 text, substituting one replacement character for
/// each maximal ill-formed subpart. Total: succeeds on every input.
#[verifier::rlimit(100)]
pub fn decode_text_lossy(bytes: &Vec<u8>) -> (text: Vec<char>)
    ensures
        text@ == lossy_decode(bytes@),
{
    let n = bytes.len();
    let mut text: Vec<char> = Vec::new();
    let mut i: usize = 0;
    proof {
        assert(bytes@.skip(0) =~= bytes@);
    }
    while i < n
        invariant
            n == bytes@.len(),
            i <= n,
            lossy_decode(bytes@) == text@ + lossy_decode(bytes@.skip(i as int)),
        decreases n - i,
    {
        let ghost rest = bytes@.skip(i as int);
        proof {
            assert(rest[0] == bytes@[i as int]);
        }
        let b = bytes[i];
        let mut ok = false;
        let mut cp: u32 = 0;
        let mut w: usize = 1;
        if b <= 0x7F {
            proof {
                assert((b & 0x7F) == b) by (bit_vector)
                    requires
                        b <= 0x7F,
                ;
            }
            ok = true;
            cp = b as u32;
        } else {
            let mut b2: u8 = 0;
            let mut b2_ok = false;
            if n - i >= 2 {
                b2 = bytes[i + 1];
                b2_ok = second_byte_ok(b, b2);
                proof {
                    assert(rest[1] == bytes@[i + 1]);
                }
            }
            if !b2_ok {
                // A lone invalid byte: an impossible lead, a lead cut
                // short by end of input, or a lead whose second byte rules
                // the sequence out. The maximal subpart is the byte alone.
                proof {
                    let c2 = rest[1];
                    let c3 = rest[2];
                    if valid_leading_and_continuation_bytes_first_codepoint(rest) {
                        if is_leading_byte_width_2(b) {
                            assert(((((b & 0x1F) as u32) << 6) | ((c2 & 0x3F) as u32))
                                < 0x80) by (bit_vector)
                                requires
                                    0xC0 <= b && b <= 0xC1,
                            ;
                        } else if is_leading_byte_width_3(b) {
                            if b == 0xE0 {
                                assert(((((b & 0x0F) as u32) << 12) | (((c2 & 0x3F) as u32) << 6)
                                    | ((c3 & 0x3F) as u32)) < 0x800) by (bit_vector)
                                    requires
                                        b == 0xE0 && 0x80 <= c2 && c2 <= 0x9F,
                                ;
                            } else {
                                assert(0xD800 <= ((((b & 0x0F) as u32) << 12) | (((c2
                                    & 0x3F) as u32) << 6) | ((c3 & 0x3F) as u32)) && ((((b
                                    & 0x0F) as u32) << 12) | (((c2 & 0x3F) as u32) << 6) | ((c3
                                    & 0x3F) as u32)) <= 0xDFFF) by (bit_vector)
                                    requires
                                        b == 0xED && 0xA0 <= c2 && c2 <= 0xBF,
                                ;
                            }
                        } else {
                            let c4 = rest[3];
                            if b == 0xF0 {
                                assert(((((b & 0x07) as u32) << 18) | (((c2 & 0x3F) as u32) << 12)
                                    | (((c3 & 0x3F) as u32) << 6) | ((c4 & 0x3F) as u32))
                                    < 0x10000) by (bit_vector)
                                    requires
                                        b == 0xF0 && 0x80 <= c2 && c2 <= 0x8F,
                                ;
                            } else {
                                assert(((((b & 0x07) as u32) << 18) | (((c2 & 0x3F) as u32) << 12)
                                    | (((c3 & 0x3F) as u32) << 6) | ((c4 & 0x3F) as u32))
                                    > 0x10FFFF) by (bit_vector)
                                    requires
                                        (b == 0xF4 && 0x90 <= c2 && c2 <= 0xBF) || (0xF5 <= b && b
                                            <= 0xF7),
                                ;
                            }
                        }
                    }
                    assert(!valid_first_scalar(rest));
                    assert(invalid_prefix_len(rest) == 1);
                }
            } else if b <= 0xDF {
                // A complete two-byte encoding.
                cp = (((b & 0x1F) as u32) << 6) | ((b2 & 0x3F) as u32);
                proof {
                    assert(0x80 <= ((((b & 0x1F) as u32) << 6) | ((b2 & 0x3F) as u32)) && ((((b
                        & 0x1F) as u32) << 6) | ((b2 & 0x3F) as u32)) <= 0x7FF) by (bit_vector)
                        requires
                            0xC2 <= b && b <= 0xDF && 0x80 <= b2 && b2 <= 0xBF,
                    ;
                }
                ok = true;
                w = 2;
            } else if b <= 0xEF {
                let mut b3: u8 = 0;
                let mut b3_ok = false;
                if n - i >= 3 {
                    b3 = bytes[i + 2];
                    b3_ok = 0x80 <= b3 && b3 <= 0xBF;
                    proof {
                        assert(rest[2] == bytes@[i + 2]);
                    }
                }
                if b3_ok {
                    // A complete three-byte encoding.
                    cp = (((b & 0x0F) as u32) << 12) | (((b2 & 0x3F) as u32) << 6) | ((b3
                        & 0x3F) as u32);
                    proof {
                        assert(0x800 <= ((((b & 0x0F) as u32) << 12) | (((b2 & 0x3F) as u32) << 6)
                            | ((b3 & 0x3F) as u32)) && ((((b & 0x0F) as u32) << 12) | (((b2
                            & 0x3F) as u32) << 6) | ((b3 & 0x3F) as u32)) <= 0xFFFF && !(0xD800
                            <= ((((b & 0x0F) as u32) << 12) | (((b2 & 0x3F) as u32) << 6) | ((b3
                            & 0x3F) as u32)) && ((((b & 0x0F) as u32) << 12) | (((b2
                            & 0x3F) as u32) << 6) | ((b3 & 0x3F) as u32)) <= 0xDFFF))
                            by (bit_vector)
                            requires
                                ((b == 0xE0 && 0xA0 <= b2 && b2 <= 0xBF) || (0xE1 <= b && b <= 0xEC
                                    && 0x80 <= b2 && b2 <= 0xBF) || (b == 0xED && 0x80 <= b2 && b2
                                    <= 0x9F) || (0xEE <= b && b <= 0xEF && 0x80 <= b2 && b2
                                    <= 0xBF)) && 0x80 <= b3 && b3 <= 0xBF,
                        ;
                    }
                    ok = true;
                    w = 3;
                } else {
                    // A truncated three-byte sequence: lead and valid
                    // second byte form one maximal subpart.
                    w = 2;
                    proof {
                        assert(!valid_first_scalar(rest));
                        assert(invalid_prefix_len(rest) == 2);
                    }
                }
            } else {
                let mut b3: u8 = 0;
                let mut b3_ok = false;
                if n - i >= 3 {
                    b3 = bytes[i + 2];
                    b3_ok = 0x80 <= b3 && b3 <= 0xBF;
                    proof {
                        assert(rest[2] == bytes@[i + 2]);
                    }
                }
                if !b3_ok {
                    // A truncated four-byte sequence of two bytes.
                    w = 2;
                    proof {
                        assert(!valid_first_scalar(rest));
                        assert(invalid_prefix_len(rest) == 2);
                    }
                } else {
                    let mut b4: u8 = 0;
                    let mut b4_ok = false;
                    if n - i >= 4 {
                        b4 = bytes[i + 3];
                        b4_ok = 0x80 <= b4 && b4 <= 0xBF;
                        proof {
                            assert(rest[3] == bytes@[i + 3]);
                        }
                    }
                    if b4_ok {
                        // A complete four-byte encoding.
                        cp = (((b & 0x07) as u32) << 18) | (((b2 & 0x3F) as u32) << 12) | (((b3
                            & 0x3F) as u32) << 6) | ((b4 & 0x3F) as u32);
                        proof {
                            assert(0x10000 <= ((((b & 0x07) as u32) << 18) | (((b2
                                & 0x3F) as u32) << 12) | (((b3 & 0x3F) as u32) << 6) | ((b4
                                & 0x3F) as u32)) && ((((b & 0x07) as u32) << 18) | (((b2
                                & 0x3F) as u32) << 12) | (((b3 & 0x3F) as u32) << 6) | ((b4
                                & 0x3F) as u32)) <= 0x10FFFF) by (bit_vector)
                                requires
                                    ((b == 0xF0 && 0x90 <= b2 && b2 <= 0xBF) || (0xF1 <= b && b
                                        <= 0xF3 && 0x80 <= b2 && b2 <= 0xBF) || (b == 0xF4 && 0x80
                                        <= b2 && b2 <= 0x8F)) && 0x80 <= b3 && b3 <= 0xBF && 0x80
                                        <= b4 && b4 <= 0xBF,
                            ;
                        }
                        ok = true;
                        w = 4;
                    } else {
                        // A truncated four-byte sequence of three bytes.
                        w = 3;
                        proof {
                            assert(!valid_first_scalar(rest));
                            assert(invalid_prefix_len(rest) == 3);
                        }
                    }
                }
            }
        }
        if ok {
            proof {
                assert(valid_first_scalar(rest));
                assert(decode_first_scalar(rest) == cp);
                assert(length_of_first_scalar(rest) == w);
                assert(pop_first_scalar(rest) =~= bytes@.skip(i + w));
                assert(lossy_decode(rest) == seq![cp as char] + lossy_decode(
                    bytes@.skip(i + w),
                ));
            }
            let c = char_from_scalar(cp);
            text.push(c);
            i = i + w;
        } else {
            proof {
                assert(!valid_first_scalar(rest));
                assert(invalid_prefix_len(rest) == w);
                assert(rest.skip(w as int) =~= bytes@.skip(i + w));
                assert(lossy_decode(rest) == seq![replacement_char()] + lossy_decode(
                    bytes@.skip(i + w),
                ));
            }
            text.push('\u{fffd}');
            i = i + w;
        }
        proof {
            assert(lossy_decode(bytes@) =~= text@ + lossy_decode(bytes@.skip(i as int)));
        }
    }
    proof {
        assert(bytes@.skip(n as int) =~= Seq::<u8>::empty());
    }
    text
}

/// True when the text contains no NUL character, the invariant required of
/// every string that crosses the boundary in zero-terminated form.
pub open spec fn nul_free(text: Seq<char>) -> bool {
    forall|i: int| 0 <= i < text.len() ==> text[i] != '\0'
}

/// The zero-terminated boundary form of a text: its UTF-8 bytes followed by
/// a single terminating zero byte.
pub open spec fn c_string_bytes(text: Seq<char>) -> Seq<u8> {
    encode_utf8(text) + seq![0u8]
}

/// Tests for an embedded NUL character, the one text that cannot cross the
/// boundary in zero-terminated form.
pub fn text_contains_nul(text: &Vec<char>) -> (found: bool)
    ensures
        found == !nul_free(text@),
{
    let mut i: usize = 0;
    while i < text.len()
        invariant
            i <= text@.len(),
            forall|j: int| 0 <= j < i ==> text@[j] != '\0',
        decreases text@.len() - i,
    {
        if text[i] == '\0' {
            return true;
        }
        i = i + 1;
    }
    false
}

/// The UTF-8 encoding of a NUL-free text contains no zero byte: only the
/// NUL character encodes to one, and multi-byte encodings use bytes of
/// 0x80 and above throughout.
pub proof fn lemma_encode_utf8_nul_free(text: Seq<char>)
    requires
        nul_free(text),
    ensures
        forall|j: int| 0 <= j < encode_utf8(text).len() ==> encode_utf8(text)[j] != 0,
    decreases text.len(),
{
    if text.len() != 0 {
        let c = text[0];
        let u = c as u32;
        char_is_scalar(c);
        assert(u != 0) by {
            if u == 0 {
                char_u32_cast(c, u);
                assert(c == '\0');
            }
        }
        assert forall|j: int| 0 <= j < encode_scalar(u).len() implies encode_scalar(u)[j]
            != 0 by {
            assert(u <= 0x7F ==> (u & 0x7F) == u) by (bit_vector);
            assert((0xC0 | (((u >> 6) & 0x1F) as u8)) != 0) by (bit_vector);
            assert((0xE0 | (((u >> 12) & 0x0F) as u8)) != 0) by (bit_vector);
            assert((0xF0 | (((u >> 18) & 0x7) as u8)) != 0) by (bit_vector);
            assert((0x80 | ((u & 0x3F) as u8)) != 0) by (bit_vector);
            assert((0x80 | (((u >> 6) & 0x3F) as u8)) != 0) by (bit_vector);
            assert((0x80 | (((u >> 12) & 0x3F) as u8)) != 0) by (bit_vector);
        }
        lemma_encode_utf8_nul_free(text.drop_first());
        assert forall|j: int| 0 <= j < encode_utf8(text).len() implies encode_utf8(text)[j]
            != 0 by {
            if j < encode_scalar(u).len() {
                assert(encode_utf8(text)[j] == encode_scalar(u)[j]);
            } else {
                assert(encode_utf8(text)[j] == encode_utf8(text.drop_first())[j - encode_scalar(
                    u,
                ).len()]);
            }
        }
    }
}

/// Encodes a NUL-free text in its zero-terminated boundary form. The
/// terminator is the one and only zero byte in the result; a text with an
/// embedded NUL is a contract violation ruled out by `requires`.
pub fn encode_c_string(text: &Vec<char>) -> (bytes: Vec<u8>)
    requires
        nul_free(text@),
    ensures
        bytes@ == c_string_bytes(text@),
        bytes@.len() >= 1,
        bytes@[bytes@.len() - 1] == 0,
        forall|j: int| 0 <= j < bytes@.len() - 1 ==> bytes@[j] != 0,
{
    let mut bytes = encode_text(text);
    bytes.push(0);
    proof {
        lemma_encode_utf8_nul_free(text@);
        assert(bytes@ =~= c_string_bytes(text@));
    }
    bytes
}

/// The index of the first zero byte, which terminates the decoded portion
/// of a zero-terminated byte sequence.
pub open spec fn nul_index(bytes: Seq<u8>) -> int
    decreases bytes.len(),
{
    if bytes.len() == 0 {
        0
    } else if bytes[0] == 0 {
        0
    } else {
        1 + nul_index(bytes.drop_first())
    }
}

/// A position with a zero byte and none before it is the first zero byte.
pub proof fn lemma_nul_index_found(bytes: Seq<u8>, k: int)
    requires
        0 <= k < bytes.len(),
        bytes[k] == 0,
        forall|j: int| 0 <= j < k ==> bytes[j] != 0,
    ensures
        nul_index(bytes) == k,
    decreases k,
{
    if k != 0 {
        lemma_nul_index_found(bytes.drop_first(), k - 1);
    }
}

/// A zero-terminated sequence has its first zero byte within bounds.
pub proof fn lemma_nul_index_terminator(bytes: Seq<u8>)
    requires
        bytes.contains(0),
    ensures
        0 <= nul_index(bytes) < bytes.len(),
        bytes[nul_index(bytes)] == 0,
    decreases bytes.len(),
{
    let w = choose|w: int| 0 <= w < bytes.len() && bytes[w] == 0;
    if bytes[0] != 0 {
        assert(bytes.drop_first().contains(0)) by {
            assert(bytes.drop_first()[w - 1] == 0);
        }
        lemma_nul_index_terminator(bytes.drop_first());
    }
}

/// Every byte before the first zero byte is itself non-zero.
pub proof fn lemma_nul_index_prefix_nonzero(bytes: Seq<u8>)
    ensures
        forall|j: int| 0 <= j < nul_index(bytes) && j < bytes.len() ==> bytes[j] != 0,
    decreases bytes.len(),
{
    if bytes.len() != 0 && bytes[0] != 0 {
        lemma_nul_index_prefix_nonzero(bytes.drop_first());
        assert forall|j: int|
            0 <= j < nul_index(bytes) && j < bytes.len() implies bytes[j] != 0 by {
            if j > 0 {
                assert(bytes.drop_first()[j - 1] == bytes[j]);
            }
        }
    }
}

/// Decodes a zero-terminated byte sequence from the boundary: the bytes up
/// to the first zero byte are decoded as UTF-8 with lossy replacement. The
/// caller retains ownership of its buffer; the terminator must be present.
pub fn decode_c_string(bytes: &Vec<u8>) -> (text: Vec<char>)
    requires
        bytes@.contains(0),
    ensures
        text@ == lossy_decode(bytes@.take(nul_index(bytes@))),
{
    let n = bytes.len();
    let mut prefix: Vec<u8> = Vec::new();
    let mut i: usize = 0;
    loop
        invariant
            n == bytes@.len(),
            i <= n,
            bytes@.contains(0),
            forall|j: int| 0 <= j < i ==> bytes@[j] != 0,
            prefix@ == bytes@.take(i as int),
        ensures
            prefix@ == bytes@.take(nul_index(bytes@)),
        decreases bytes@.len() - i,
    {
        proof {
            if i >= bytes@.len() {
                let w = choose|w: int| 0 <= w < bytes@.len() && bytes@[w] == 0;
                assert(bytes@[w] != 0);
            }
            assert(i < n);
        }
        let b = bytes[i];
        if b == 0 {
            proof {
                lemma_nul_index_found(bytes@, i as int);
            }
            break;
        }
        prefix.push(b);
        proof {
            assert(prefix@ =~= bytes@.take(i + 1));
        }
        i = i + 1;
    }
    decode_text_lossy(&prefix)
}

/// A byte sequence without a zero byte never decodes to a text containing
/// the NUL character: only the zero byte encodes NUL, and the replacement
/// character is not NUL. Text decoded from a zero-terminated sequence can
/// therefore always be re-encoded in zero-terminated form.
pub proof fn lemma_lossy_decode_nul_free(bytes: Seq<u8>)
    requires
        forall|i: int| 0 <= i < bytes.len() ==> bytes[i] != 0,
    ensures
        nul_free(lossy_decode(bytes)),
    decreases bytes.len(),
{
    if bytes.len() != 0 {
        if valid_first_scalar(bytes) {
            let u = decode_first_scalar(bytes);
            let b = bytes[0];
            assert(u != 0) by {
                if is_leading_byte_width_1(b) {
                    assert(b != 0);
                    assert(b <= 0x7f ==> ((b & 0x7f) as u32) == b as u32) by (bit_vector);
                }
            }
            let s1 = take_first_scalar(bytes);
            assert(s1.len() == length_of_first_scalar(bytes));
            assert(valid_first_scalar(s1));
            assert(decode_first_scalar(s1) == u);
            assert(valid_utf8(s1)) by {
                reveal_with_fuel(valid_utf8, 2);
                assert(pop_first_scalar(s1) =~= Seq::<u8>::empty());
            }
            assert((u as char) != '\0') by {
                decode_utf8_first_scalar(s1);
                assert(take_first_scalar(s1) =~= s1);
                if (u as char) == '\0' {
                    assert(('\0' as u32) == 0);
                    assert(encode_scalar(0) == seq![leading_byte_width_1(0)]);
                    assert((0u32 & 0x7F) as u8 == 0) by (bit_vector);
                    assert(s1 == seq![0u8]);
                    assert(bytes[0] == 0);
                }
            }
            lemma_lossy_decode_nul_free(pop_first_scalar(bytes));
        } else {
            let l = invalid_prefix_len(bytes);
            assert forall|i: int|
                0 <= i < bytes.skip(l).len() implies bytes.skip(l)[i] != 0 by {
                assert(bytes.skip(l)[i] == bytes[l + i]);
            }
            lemma_lossy_decode_nul_free(bytes.skip(l));
        }
    }
}

/// A NUL-free text survives the zero-terminated round trip: its boundary
/// form ends at the appended terminator, and decoding the portion before
/// the terminator yields the original text unchanged.
pub proof fn lemma_c_string_round_trip(text: Seq<char>)
    requires
        nul_free(text),
    ensures
        nul_index(c_string_bytes(text)) == encode_utf8(text).len(),
        lossy_decode(c_string_bytes(text).take(nul_index(c_string_bytes(text)))) == text,
{
    let bytes = c_string_bytes(text);
    lemma_encode_utf8_nul_free(text);
    lemma_nul_index_found(bytes, encode_utf8(text).len() as int);
    assert(bytes.take(encode_utf8(text).len() as int) =~= encode_utf8(text));
    lemma_text_round_trip(text);
}

/// The single release function for every zero-terminated string the
/// boundary hands out: reconstructs ownership of the byte buffer and frees
/// it. Only a non-null handle that the boundary produced and that has not
/// been released before may be passed; anything else is a contract
/// violation ruled out by `requires`.
pub fn string_free(strings: &mut HandleStore<Vec<u8>>, h: usize)
    requires
        h != 0,
        old(strings).live(h),
    ensures
        !final(strings).live(h),
        final(strings).contents() == old(strings).contents().remove(h),
{
    let _bytes = strings.release(h);
}

} // verus!
