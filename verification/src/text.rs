//! Lossy decoding of host-supplied byte strings.
//!
//! The host hands the plugin null-terminated byte strings whose contents it
//! does not guarantee to be well-formed UTF-8.  Decoding therefore never
//! fails: every well-formed scalar encoding is decoded to its character, and
//! every byte that does not begin one is replaced by U+FFFD.  On well-formed
//! input the result is exactly the encoded text.

use vstd::prelude::*;
use vstd::utf8::*;

verus! {

/// Character substituted for each byte of an ill-formed sequence.
pub const REPLACEMENT_CHARACTER: char = '\u{fffd}';

/// The characters obtained by decoding `bytes` as UTF-8, replacing each byte
/// that does not begin a well-formed scalar encoding with U+FFFD.
pub open spec fn lossy_decode(bytes: Seq<u8>) -> Seq<char>
    decreases bytes.len(),
{
    if bytes.len() == 0 {
        seq![]
    } else if valid_first_scalar(bytes) {
        seq![decode_first_scalar(bytes) as char] + lossy_decode(pop_first_scalar(bytes))
    } else {
        seq![REPLACEMENT_CHARACTER] + lossy_decode(bytes.drop_first())
    }
}

/// On well-formed UTF-8 input, lossy decoding is plain UTF-8 decoding.
pub proof fn lemma_lossy_decode_valid_utf8(bytes: Seq<u8>)
    requires
        valid_utf8(bytes),
    ensures
        lossy_decode(bytes) == decode_utf8(bytes),
    decreases bytes.len(),
{
    if bytes.len() != 0 {
        lemma_lossy_decode_valid_utf8(pop_first_scalar(bytes));
    }
}

/// Round trip: text encoded as UTF-8 by the host decodes back to exactly
/// that text, with no byte replaced.
pub proof fn lemma_lossy_decode_round_trip(text: Seq<char>)
    ensures
        lossy_decode(encode_utf8(text)) == text,
{
    encode_utf8_valid_utf8(text);
    encode_utf8_decode_utf8(text);
    lemma_lossy_decode_valid_utf8(encode_utf8(text));
}

/// Ill-formed input is decoded by substitution, never by failure: whenever
/// the bytes are not well-formed UTF-8, the decoded text holds at least one
/// replacement character.
pub proof fn lemma_invalid_input_substituted(bytes: Seq<u8>)
    requires
        !valid_utf8(bytes),
    ensures
        lossy_decode(bytes).contains(REPLACEMENT_CHARACTER),
    decreases bytes.len(),
{
    if valid_first_scalar(bytes) {
        lemma_invalid_input_substituted(pop_first_scalar(bytes));
        let rest = lossy_decode(pop_first_scalar(bytes));
        let j = choose|j: int| 0 <= j < rest.len() && rest[j] == REPLACEMENT_CHARACTER;
        assert(lossy_decode(bytes)[j + 1] == REPLACEMENT_CHARACTER);
    } else {
        assert(lossy_decode(bytes)[0] == REPLACEMENT_CHARACTER);
    }
}

/// Relies on `char::from_u32`: the standard library documents that it
/// returns `Some` of the character with the given value for every value
/// that is not a surrogate and is at most 0x10FFFF, i.e. for every Unicode
/// scalar value; the unreachable arm keeps the function total.
#[verifier::external_body]
fn char_of_scalar(v: u32) -> (c: char)
    requires
        is_scalar(v),
    ensures
        c == v as char,
{
    match char::from_u32(v) {
        Some(c) => c,
        None => '\u{fffd}',
    }
}

/// Relies on `String::push`: appends exactly the given character.
#[verifier::external_body]
fn push_char(s: &mut String, c: char)
    ensures
        final(s)@ == old(s)@.push(c),
{
    s.push(c);
}

/// Reads the scalar encoded at position `i`: its value and the number of
/// bytes of its encoding, or `None` when no well-formed scalar encoding
/// starts there.
fn first_scalar(bytes: &Vec<u8>, i: usize) -> (r: Option<(u32, usize)>)
    requires
        i < bytes@.len(),
    ensures
        match r {
            Some(vw) => {
                &&& valid_first_scalar(bytes@.skip(i as int))
                &&& vw.0 == decode_first_scalar(bytes@.skip(i as int))
                &&& is_scalar(vw.0)
                &&& vw.1 == length_of_first_scalar(bytes@.skip(i as int))
                &&& 1 <= vw.1 <= 4
                &&& i + vw.1 <= bytes@.len()
            },
            None => !valid_first_scalar(bytes@.skip(i as int)),
        },
{
    let ghost s = bytes@.skip(i as int);
    let n = bytes.len();
    let b0 = bytes[i];
    proof {
        assert(s.len() == n - i);
        assert(s[0] == b0);
    }
    if b0 < 0x80 {
        let v = b0 as u32;
        proof {
            assert(codepoint_width_1(b0) == v) by (bit_vector)
                requires
                    b0 < 0x80,
                    v == b0 as u32,
            ;
            assert(valid_first_scalar(s));
        }
        Some((v, 1))
    } else if 0xc0 <= b0 && b0 <= 0xdf {
        if n - i >= 2 {
            let b1 = bytes[i + 1];
            proof {
                assert(s[1] == b1);
            }
            if 0x80 <= b1 && b1 <= 0xbf {
                let v = (((b0 & 0x1f) as u32) << 6) | ((b1 & 0x3f) as u32);
                proof {
                    assert(v <= 0x7ff) by (bit_vector)
                        requires
                            v == (((b0 & 0x1f) as u32) << 6) | ((b1 & 0x3f) as u32),
                    ;
                }
                if v >= 0x80 {
                    proof {
                        assert(valid_first_scalar(s));
                    }
                    Some((v, 2))
                } else {
                    proof {
                        assert(!valid_first_scalar(s));
                    }
                    None
                }
            } else {
                proof {
                    assert(!valid_first_scalar(s));
                }
                None
            }
        } else {
            proof {
                assert(!valid_first_scalar(s));
            }
            None
        }
    } else if 0xe0 <= b0 && b0 <= 0xef {
        if n - i >= 3 {
            let b1 = bytes[i + 1];
            let b2 = bytes[i + 2];
            proof {
                assert(s[1] == b1);
                assert(s[2] == b2);
            }
            if 0x80 <= b1 && b1 <= 0xbf && 0x80 <= b2 && b2 <= 0xbf {
                let v = (((b0 & 0x0f) as u32) << 12) | (((b1 & 0x3f) as u32) << 6) | ((b2
                    & 0x3f) as u32);
                proof {
                    assert(v <= 0xffff) by (bit_vector)
                        requires
                            v == (((b0 & 0x0f) as u32) << 12) | (((b1 & 0x3f) as u32) << 6) | ((b2
                                & 0x3f) as u32),
                    ;
                }
                if v >= 0x800 && !(0xd800 <= v && v <= 0xdfff) {
                    proof {
                        assert(valid_first_scalar(s));
                    }
                    Some((v, 3))
                } else {
                    proof {
                        assert(!valid_first_scalar(s));
                    }
                    None
                }
            } else {
                proof {
                    assert(!valid_first_scalar(s));
                }
                None
            }
        } else {
            proof {
                assert(!valid_first_scalar(s));
            }
            None
        }
    } else if 0xf0 <= b0 && b0 <= 0xf7 {
        if n - i >= 4 {
            let b1 = bytes[i + 1];
            let b2 = bytes[i + 2];
            let b3 = bytes[i + 3];
            proof {
                assert(s[1] == b1);
                assert(s[2] == b2);
                assert(s[3] == b3);
            }
            if 0x80 <= b1 && b1 <= 0xbf && 0x80 <= b2 && b2 <= 0xbf && 0x80 <= b3 && b3 <= 0xbf {
                let v = (((b0 & 0x07) as u32) << 18) | (((b1 & 0x3f) as u32) << 12) | (((b2
                    & 0x3f) as u32) << 6) | ((b3 & 0x3f) as u32);
                if 0x10000 <= v && v <= 0x10ffff {
                    proof {
                        assert(valid_first_scalar(s));
                    }
                    Some((v, 4))
                } else {
                    proof {
                        assert(!valid_first_scalar(s));
                    }
                    None
                }
            } else {
                proof {
                    assert(!valid_first_scalar(s));
                }
                None
            }
        } else {
            proof {
                assert(!valid_first_scalar(s));
            }
            None
        }
    } else {
        proof {
            assert(!valid_first_scalar(s));
        }
        None
    }
}

/// Decodes host-supplied bytes, never failing: each byte that does not begin
/// a well-formed scalar encoding comes out as U+FFFD.
pub fn decode_utf8_lossy(bytes: &Vec<u8>) -> (text: String)
    ensures
        text@ == lossy_decode(bytes@),
        valid_utf8(bytes@) ==> text@ == decode_utf8(bytes@),
{
    proof {
        if valid_utf8(bytes@) {
            lemma_lossy_decode_valid_utf8(bytes@);
        }
    }
    let n = bytes.len();
    let mut text = String::new();
    let mut i: usize = 0;
    proof {
        assert(bytes@.skip(0) =~= bytes@);
        assert(Seq::<char>::empty() + lossy_decode(bytes@) =~= lossy_decode(bytes@));
    }
    while i < n
        invariant
            n == bytes@.len(),
            i <= n,
            lossy_decode(bytes@) == text@ + lossy_decode(bytes@.skip(i as int)),
        decreases n - i,
    {
        let ghost s = bytes@.skip(i as int);
        let ghost pre = text@;
        match first_scalar(bytes, i) {
            Some((v, w)) => {
                let c = char_of_scalar(v);
                push_char(&mut text, c);
                proof {
                    assert(s.len() == n - i);
                    assert(lossy_decode(s) == seq![c] + lossy_decode(pop_first_scalar(s)));
                    assert(pop_first_scalar(s) =~= bytes@.skip(i as int + w as int));
                    assert(pre.push(c) + lossy_decode(bytes@.skip(i as int + w as int)) =~= pre + (
                    seq![c] + lossy_decode(bytes@.skip(i as int + w as int))));
                }
                i = i + w;
            },
            None => {
                push_char(&mut text, REPLACEMENT_CHARACTER);
                proof {
                    assert(s.len() == n - i);
                    assert(lossy_decode(s) == seq![REPLACEMENT_CHARACTER] + lossy_decode(
                        s.drop_first(),
                    ));
                    assert(s.drop_first() =~= bytes@.skip(i as int + 1));
                    assert(pre.push(REPLACEMENT_CHARACTER) + lossy_decode(
                        bytes@.skip(i as int + 1),
                    ) =~= pre + (seq![REPLACEMENT_CHARACTER] + lossy_decode(
                        bytes@.skip(i as int + 1),
                    )));
                }
                i = i + 1;
            },
        }
    }
    proof {
        assert(bytes@.skip(n as int) =~= Seq::<u8>::empty());
    }
    text
}

} // verus!
