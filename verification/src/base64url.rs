//! Base64 with the URL-safe alphabet and no padding, as RFC 4648 section 5
//! defines it and RFC 7515 uses it for keys and tokens.

use vstd::prelude::*;
use vstd::string::StrSliceExecFns;
use vstd::string::StringExecFns;

verus! {

/// The sixty-four digits, in the order of their values.
pub open spec fn alphabet() -> Seq<char> {
    "ABCDEFGHIJKLMNOPQRSTUVWXYZabcdefghijklmnopqrstuvwxyz0123456789-_"@
}

/// The digit that stands for the six-bit value `v`.
pub open spec fn digit(v: int) -> char
    recommends
        0 <= v < 64,
{
    if v < 26 {
        (v + 65) as char
    } else if v < 52 {
        (v + 71) as char
    } else if v < 62 {
        (v - 4) as char
    } else if v == 62 {
        '-'
    } else {
        '_'
    }
}

/// The six-bit value of a digit; `None` for every other character.
pub open spec fn value(c: char) -> Option<int> {
    let n = c as int;
    if 65 <= n <= 90 {
        Some(n - 65)
    } else if 97 <= n <= 122 {
        Some(n - 71)
    } else if 48 <= n <= 57 {
        Some(n + 4)
    } else if c == '-' {
        Some(62)
    } else if c == '_' {
        Some(63)
    } else {
        None
    }
}

/// The encoding of a byte sequence: each group of three bytes becomes four
/// digits, most significant bits first; a final group of one or two bytes
/// becomes two or three digits, its unused low bits zero.
pub open spec fn encoded(bytes: Seq<u8>) -> Seq<char>
    decreases bytes.len(),
{
    if bytes.len() == 0 {
        Seq::empty()
    } else if bytes.len() == 1 {
        let a = bytes[0] as int;
        seq![digit(a / 4), digit(a % 4 * 16)]
    } else if bytes.len() == 2 {
        let a = bytes[0] as int;
        let b = bytes[1] as int;
        seq![digit(a / 4), digit(a % 4 * 16 + b / 16), digit(b % 16 * 4)]
    } else {
        let a = bytes[0] as int;
        let b = bytes[1] as int;
        let c = bytes[2] as int;
        seq![digit(a / 4), digit(a % 4 * 16 + b / 16), digit(b % 16 * 4 + c / 64), digit(c % 64)]
            + encoded(bytes.skip(3))
    }
}

/// The bytes that a text encodes; `None` where the text is not the encoding of
/// any byte sequence (a foreign character, a padding character, a length of
/// one modulo four, or set bits where a final group must have zeros).
pub open spec fn decoded(text: Seq<char>) -> Option<Seq<u8>>
    decreases text.len(),
{
    if text.len() == 0 {
        Some(Seq::empty())
    } else if text.len() == 1 {
        None
    } else if text.len() == 2 {
        match (value(text[0]), value(text[1])) {
            (Some(p), Some(q)) => if q % 16 == 0 {
                Some(seq![(p * 4 + q / 16) as u8])
            } else {
                None
            },
            _ => None,
        }
    } else if text.len() == 3 {
        match (value(text[0]), value(text[1]), value(text[2])) {
            (Some(p), Some(q), Some(r)) => if r % 4 == 0 {
                Some(seq![(p * 4 + q / 16) as u8, (q % 16 * 16 + r / 4) as u8])
            } else {
                None
            },
            _ => None,
        }
    } else {
        match (value(text[0]), value(text[1]), value(text[2]), value(text[3])) {
            (Some(p), Some(q), Some(r), Some(s)) => match decoded(text.skip(4)) {
                Some(rest) => Some(
                    seq![
                        (p * 4 + q / 16) as u8,
                        (q % 16 * 16 + r / 4) as u8,
                        (r % 4 * 64 + s) as u8,
                    ] + rest,
                ),
                None => None,
            },
            _ => None,
        }
    }
}

/// Number of digits in the encoding of `n` bytes.
pub open spec fn encoded_len(n: nat) -> nat {
    ((4 * n + 2) / 3) as nat
}

/// `digit` and `value` are inverse to each other on the six-bit values, and
/// `digit` is the table lookup in [`alphabet`].
pub proof fn lemma_digit_value(v: int)
    requires
        0 <= v < 64,
    ensures
        value(digit(v)) == Some(v),
        digit(v) != '=',
        digit(v) == alphabet()[v],
{
    reveal_strlit("ABCDEFGHIJKLMNOPQRSTUVWXYZabcdefghijklmnopqrstuvwxyz0123456789-_");
}

/// Encoding and then decoding gives back the bytes, whatever they are.
pub proof fn lemma_round_trip(bytes: Seq<u8>)
    ensures
        decoded(encoded(bytes)) == Some(bytes),
    decreases bytes.len(),
{
    if bytes.len() == 0 {
    } else if bytes.len() == 1 {
        let a = bytes[0] as int;
        lemma_digit_value(a / 4);
        lemma_digit_value(a % 4 * 16);
        assert(seq![(a / 4 * 4 + a % 4 * 16 / 16) as u8] =~= bytes);
    } else if bytes.len() == 2 {
        let a = bytes[0] as int;
        let b = bytes[1] as int;
        lemma_digit_value(a / 4);
        lemma_digit_value(a % 4 * 16 + b / 16);
        lemma_digit_value(b % 16 * 4);
        let q = a % 4 * 16 + b / 16;
        let r = b % 16 * 4;
        assert(seq![(a / 4 * 4 + q / 16) as u8, (q % 16 * 16 + r / 4) as u8] =~= bytes);
    } else {
        let a = bytes[0] as int;
        let b = bytes[1] as int;
        let c = bytes[2] as int;
        let p = a / 4;
        let q = a % 4 * 16 + b / 16;
        let r = b % 16 * 4 + c / 64;
        let s = c % 64;
        lemma_digit_value(p);
        lemma_digit_value(q);
        lemma_digit_value(r);
        lemma_digit_value(s);
        lemma_round_trip(bytes.skip(3));
        let text = encoded(bytes);
        assert(text.skip(4) =~= encoded(bytes.skip(3)));
        assert(seq![(p * 4 + q / 16) as u8, (q % 16 * 16 + r / 4) as u8, (r % 4 * 64 + s) as u8]
            + bytes.skip(3) =~= bytes);
    }
}

/// The encoding consists of digits only: no padding character and nothing
/// else from outside the alphabet occurs in it. Its length is fixed by the
/// number of bytes.
pub proof fn lemma_encoded_digits(bytes: Seq<u8>)
    ensures
        encoded(bytes).len() == encoded_len(bytes.len()),
        forall|i: int| 0 <= i < encoded(bytes).len() ==> value(#[trigger] encoded(bytes)[i]) is Some,
        forall|i: int| 0 <= i < encoded(bytes).len() ==> #[trigger] encoded(bytes)[i] != '=',
    decreases bytes.len(),
{
    if bytes.len() == 0 {
    } else if bytes.len() == 1 {
        let a = bytes[0] as int;
        lemma_digit_value(a / 4);
        lemma_digit_value(a % 4 * 16);
    } else if bytes.len() == 2 {
        let a = bytes[0] as int;
        let b = bytes[1] as int;
        lemma_digit_value(a / 4);
        lemma_digit_value(a % 4 * 16 + b / 16);
        lemma_digit_value(b % 16 * 4);
    } else {
        let a = bytes[0] as int;
        let b = bytes[1] as int;
        let c = bytes[2] as int;
        lemma_digit_value(a / 4);
        lemma_digit_value(a % 4 * 16 + b / 16);
        lemma_digit_value(b % 16 * 4 + c / 64);
        lemma_digit_value(c % 64);
        lemma_encoded_digits(bytes.skip(3));
    }
}

/// Two byte sequences with the same encoding are the same sequence.
pub proof fn lemma_encoded_injective(x: Seq<u8>, y: Seq<u8>)
    requires
        encoded(x) == encoded(y),
    ensures
        x == y,
{
    lemma_round_trip(x);
    lemma_round_trip(y);
}

/// A text that encodes something consists of digits only.
pub proof fn lemma_decoded_digits(text: Seq<char>)
    requires
        decoded(text) is Some,
    ensures
        forall|i: int| 0 <= i < text.len() ==> value(#[trigger] text[i]) is Some,
    decreases text.len(),
{
    if text.len() >= 4 {
        lemma_decoded_digits(text.skip(4));
        assert forall|i: int| 0 <= i < text.len() implies value(#[trigger] text[i]) is Some by {
            if i >= 4 {
                assert(text[i] == text.skip(4)[i - 4]);
            }
        }
    }
}

/// `bytes` in front of what `rest` holds, where it holds anything.
pub open spec fn prepended(bytes: Seq<u8>, rest: Option<Seq<u8>>) -> Option<Seq<u8>> {
    match rest {
        Some(tail) => Some(bytes + tail),
        None => None,
    }
}

/// The six-bit value of the digit with the character code `code`.
fn digit_value(code: u8) -> (v: Option<u8>)
    ensures
        match value(code as char) {
            Some(n) => v == Some(n as u8) && 0 <= n < 64,
            None => v is None,
        },
{
    if 65 <= code && code <= 90 {
        Some(code - 65)
    } else if 97 <= code && code <= 122 {
        Some(code - 71)
    } else if 48 <= code && code <= 57 {
        Some(code + 4)
    } else if code == 45 {
        Some(62)
    } else if code == 95 {
        Some(63)
    } else {
        None
    }
}

/// Appends the digit of the six-bit value `v` to `text`.
fn push_digit(text: &mut String, v: u8)
    requires
        v < 64,
    ensures
        final(text)@ == old(text)@.push(digit(v as int)),
{
    let table = "ABCDEFGHIJKLMNOPQRSTUVWXYZabcdefghijklmnopqrstuvwxyz0123456789-_";
    proof {
        reveal_strlit("ABCDEFGHIJKLMNOPQRSTUVWXYZabcdefghijklmnopqrstuvwxyz0123456789-_");
        lemma_digit_value(v as int);
    }
    let at: usize = v as usize;
    let piece = table.substring_ascii(at, at + 1);
    text.append(piece);
    assert(final(text)@ =~= old(text)@.push(digit(v as int)));
}

/// Encodes `bytes` in base64 with the URL-safe alphabet, without padding.
pub fn encode(bytes: &[u8]) -> (text: String)
    ensures
        text@ == encoded(bytes@),
{
    let mut text = String::new();
    let n = bytes.len();
    let mut i: usize = 0;
    assert(bytes@.skip(0) =~= bytes@);
    while n - i >= 3
        invariant
            n == bytes@.len(),
            i <= n,
            encoded(bytes@) == text@ + encoded(bytes@.skip(i as int)),
        decreases n - i,
    {
        let a = bytes[i];
        let b = bytes[i + 1];
        let c = bytes[i + 2];
        let ghost before = text@;
        let ghost rest = bytes@.skip(i as int);
        push_digit(&mut text, a / 4);
        push_digit(&mut text, a % 4 * 16 + b / 16);
        push_digit(&mut text, b % 16 * 4 + c / 64);
        push_digit(&mut text, c % 64);
        proof {
            assert(rest.skip(3) =~= bytes@.skip(i + 3));
            assert(text@ + encoded(rest.skip(3)) =~= before + encoded(rest));
        }
        i = i + 3;
    }
    let ghost before = text@;
    let ghost rest = bytes@.skip(i as int);
    if n - i == 1 {
        let a = bytes[i];
        push_digit(&mut text, a / 4);
        push_digit(&mut text, a % 4 * 16);
        assert(text@ =~= before + encoded(rest));
    } else if n - i == 2 {
        let a = bytes[i];
        let b = bytes[i + 1];
        push_digit(&mut text, a / 4);
        push_digit(&mut text, a % 4 * 16 + b / 16);
        push_digit(&mut text, b % 16 * 4);
        assert(text@ =~= before + encoded(rest));
    } else {
        assert(text@ =~= before + encoded(rest));
    }
    text
}

/// Decodes a text in base64 with the URL-safe alphabet, without padding.
/// Returns `None` where the text is not the encoding of any byte sequence.
pub fn decode(text: &str) -> (r: Option<Vec<u8>>)
    ensures
        match decoded(text@) {
            Some(bytes) => r matches Some(v) && v@ == bytes,
            None => r is None,
        },
{
    if !text.is_ascii() {
        proof {
            if decoded(text@) is Some {
                lemma_decoded_digits(text@);
                assert(vstd::utf8::is_ascii_chars(text@));
            }
        }
        return None;
    }
    let codes = text.as_bytes();
    proof {
        vstd::string::is_ascii_spec_bytes(text);
        assert forall|j: int| 0 <= j < text@.len() implies codes@[j] as char
            == #[trigger] text@[j] by {
            let c = text@[j];
            assert(0 <= c as int <= 127);
            assert(codes@[j] == c as u8);
            assert((c as u8) as char == c);
        }
    }
    let n = codes.len();
    let mut out: Vec<u8> = Vec::new();
    let mut i: usize = 0;
    assert(text@.skip(0) =~= text@);
    assert(Seq::<u8>::empty() + decoded(text@)->Some_0 =~= decoded(text@)->Some_0);
    while n - i >= 4
        invariant
            i <= n,
            n == codes@.len(),
            n == text@.len(),
            forall|j: int| 0 <= j < n ==> codes@[j] as char == #[trigger] text@[j],
            decoded(text@) == prepended(out@, decoded(text@.skip(i as int))),
        decreases n - i,
    {
        let ghost rest = text@.skip(i as int);
        let ghost before = out@;
        assert(rest[0] == text@[i as int] && rest[1] == text@[i + 1] && rest[2] == text@[i + 2]
            && rest[3] == text@[i + 3]);
        let p = digit_value(codes[i]);
        let q = digit_value(codes[i + 1]);
        let r = digit_value(codes[i + 2]);
        let s = digit_value(codes[i + 3]);
        match (p, q, r, s) {
            (Some(p), Some(q), Some(r), Some(s)) => {
                out.push(p * 4 + q / 16);
                out.push(q % 16 * 16 + r / 4);
                out.push(r % 4 * 64 + s);
                proof {
                    assert(rest.skip(4) =~= text@.skip(i + 4));
                    let group = seq![
                        (p as int * 4 + q as int / 16) as u8,
                        (q as int % 16 * 16 + r as int / 4) as u8,
                        (r as int % 4 * 64 + s as int) as u8,
                    ];
                    assert(out@ =~= before + group);
                    assert(decoded(rest) == prepended(group, decoded(rest.skip(4))));
                    if decoded(rest.skip(4)) is Some {
                        assert(before + (group + decoded(rest.skip(4))->Some_0) =~= out@ + decoded(
                            rest.skip(4),
                        )->Some_0);
                    }
                }
            },
            _ => {
                return None;
            },
        }
        i = i + 4;
    }
    let ghost rest = text@.skip(i as int);
    let ghost before = out@;
    if n - i == 0 {
        assert(before + Seq::<u8>::empty() =~= before);
        Some(out)
    } else if n - i == 1 {
        None
    } else if n - i == 2 {
        assert(rest[0] == text@[i as int] && rest[1] == text@[i + 1]);
        match (digit_value(codes[i]), digit_value(codes[i + 1])) {
            (Some(p), Some(q)) => {
                if q % 16 == 0 {
                    out.push(p * 4 + q / 16);
                    assert(out@ =~= before + seq![(p as int * 4 + q as int / 16) as u8]);
                    Some(out)
                } else {
                    None
                }
            },
            _ => None,
        }
    } else {
        assert(rest[0] == text@[i as int] && rest[1] == text@[i + 1] && rest[2] == text@[i + 2]);
        match (digit_value(codes[i]), digit_value(codes[i + 1]), digit_value(codes[i + 2])) {
            (Some(p), Some(q), Some(r)) => {
                if r % 4 == 0 {
                    out.push(p * 4 + q / 16);
                    out.push(q % 16 * 16 + r / 4);
                    assert(out@ =~= before + seq![
                        (p as int * 4 + q as int / 16) as u8,
                        (q as int % 16 * 16 + r as int / 4) as u8,
                    ]);
                    Some(out)
                } else {
                    None
                }
            },
            _ => None,
        }
    }
}

} // verus!
