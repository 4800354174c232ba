//! Hex text for addresses: the optional `0x` prefix, parsing and formatting.
use vstd::prelude::*;
use vstd::string::*;

use crate::types::Address;

verus! {

pub open spec fn is_hex_digit(c: char) -> bool {
    ('0' <= c && c <= '9') || ('a' <= c && c <= 'f') || ('A' <= c && c <= 'F')
}

/// The characters that the hex decoder passes over.
pub open spec fn is_hex_space(c: char) -> bool {
    c == ' ' || c == '\r' || c == '\n' || c == '\t'
}

pub open spec fn hex_val(c: char) -> int {
    if '0' <= c && c <= '9' {
        c as int - '0' as int
    } else if 'a' <= c && c <= 'f' {
        c as int - 'a' as int + 10
    } else {
        c as int - 'A' as int + 10
    }
}

/// The lowercase digit for a value below 16.
pub open spec fn hex_char(v: int) -> char {
    if v < 10 {
        ('0' as int + v) as char
    } else {
        ('a' as int + v - 10) as char
    }
}

/// The hex digits of `s`, in order, without what lies between them.
pub open spec fn hex_digits(s: Seq<char>) -> Seq<char> {
    s.filter(|c: char| is_hex_digit(c))
}

/// The bytes spelled by a string of hex digits, two digits to a byte.
pub open spec fn decode_hex(d: Seq<char>) -> Seq<u8> {
    Seq::new(d.len() / 2, |i: int| (hex_val(d[2 * i]) * 16 + hex_val(d[2 * i + 1])) as u8)
}

/// `s` holds only hex digits and blanks, and exactly `2 * n` digits.
pub open spec fn is_hex_of_len(s: Seq<char>, n: nat) -> bool {
    &&& forall|i: int| 0 <= i < s.len() ==> is_hex_digit(#[trigger] s[i]) || is_hex_space(s[i])
    &&& hex_digits(s).len() == 2 * n
}

/// Two lowercase hex digits per byte, high digit first.
pub open spec fn hex_encode(b: Seq<u8>) -> Seq<char> {
    Seq::new(
        2 * b.len(),
        |i: int|
            if i % 2 == 0 {
                hex_char(b[i / 2] as int / 16)
            } else {
                hex_char(b[i / 2] as int % 16)
            },
    )
}

pub open spec fn strip_0x(s: Seq<char>) -> Seq<char> {
    if s.len() >= 2 && s[0] == '0' && s[1] == 'x' {
        s.subrange(2, s.len() as int)
    } else {
        s
    }
}

/// `s` is exactly `2 * n` hex digits and nothing else.
pub open spec fn is_hex_string(s: Seq<char>, n: nat) -> bool {
    &&& s.len() == 2 * n
    &&& forall|i: int| 0 <= i < s.len() ==> is_hex_digit(#[trigger] s[i])
}

/// The address that a string names: an optional `0x`, then exactly 40 hex digits.
pub open spec fn parse_address_spec(s: Seq<char>) -> Option<Seq<u8>> {
    let t = strip_0x(s);
    if is_hex_string(t, 20) {
        Some(decode_hex(t))
    } else {
        None
    }
}

/// The canonical text of an address: `0x` and 40 lowercase hex digits.
pub open spec fn format_address_spec(b: Seq<u8>) -> Seq<char> {
    seq!['0', 'x'] + hex_encode(b)
}

/// Drops a leading `0x`, if there is one.
pub fn clean_0x(s: &str) -> (r: &str)
    ensures
        r@ == strip_0x(s@),
{
    let n = s.unicode_len();
    if n >= 2 && s.get_char(0) == '0' && s.get_char(1) == 'x' {
        s.substring_char(2, n)
    } else {
        proof {
            assert(s@.subrange(0, s@.len() as int) =~= s@);
        }
        s.substring_char(0, n)
    }
}

/// Relies on `FromStr` for web3's `Address` (ethereum-types' `H160`): rustc-hex decodes
/// the string two digits to a byte, passing over spaces, tabs and line breaks and
/// refusing any other non-hex character or an odd number of digits; the result is
/// then accepted only if it holds exactly 20 bytes.
#[verifier::external_body]
fn decode_address_hex(s: &str) -> (r: Option<[u8; 20]>)
    ensures
        r is Some <==> is_hex_of_len(s@, 20),
        r matches Some(b) ==> b@ == decode_hex(hex_digits(s@)),
{
    s.parse::<web3::types::Address>().ok().map(|a| a.0)
}

/// Parses an address written in hex, with or without a `0x` prefix.
pub fn parse_address(s: &str) -> (r: Option<Address>)
    ensures
        r is Some <==> parse_address_spec(s@) is Some,
        r matches Some(a) ==> Some(a.bytes@) == parse_address_spec(s@),
{
    let t = clean_0x(s);
    if t.unicode_len() != 40 {
        return None;
    }
    let r = decode_address_hex(t);
    proof {
        if r is Some {
            lemma_all_digits_when_filter_keeps_all(t@);
        }
        if is_hex_string(t@, 20) {
            lemma_hex_digits_of_digits(t@);
        }
    }
    match r {
        Some(b) => Some(Address { bytes: b }),
        None => None,
    }
}

/// When no character is filtered out, every character is a hex digit.
proof fn lemma_all_digits_when_filter_keeps_all(s: Seq<char>)
    requires
        hex_digits(s).len() == s.len(),
    ensures
        forall|i: int| 0 <= i < s.len() ==> is_hex_digit(#[trigger] s[i]),
    decreases s.len(),
{
    reveal(Seq::filter);
    if s.len() > 0 {
        let d = s.drop_last();
        d.lemma_filter_len(|c: char| is_hex_digit(c));
        if !is_hex_digit(s.last()) {
            assert(hex_digits(s) == hex_digits(d));
            assert(false);
        }
        assert(hex_digits(s) == hex_digits(d).push(s.last()));
        lemma_all_digits_when_filter_keeps_all(d);
        assert forall|i: int| 0 <= i < s.len() implies is_hex_digit(#[trigger] s[i]) by {
            if i < s.len() - 1 {
                assert(s[i] == d[i]);
            }
        }
    }
}

fn hex_digit(v: u8) -> (c: char)
    requires
        v < 16,
    ensures
        c == hex_char(v as int),
{
    if v < 10 {
        (48 + v) as char
    } else {
        (87 + v) as char
    }
}

/// Relies on `String::push`: the character is appended at the end.
pub assume_specification[ String::push ](s: &mut String, ch: char)
    ensures
        final(s)@ == old(s)@.push(ch),
;

impl Address {
    /// `0x` followed by the 40 lowercase hex digits of the address.
    pub fn to_hex_string(&self) -> (r: String)
        ensures
            r@ == format_address_spec(self.bytes@),
    {
        let mut out = String::new();
        out.push('0');
        out.push('x');
        let mut i: usize = 0;
        while i < 20
            invariant
                0 <= i <= 20,
                self.bytes@.len() == 20,
                out@ == seq!['0', 'x'] + hex_encode(self.bytes@.subrange(0, i as int)),
            decreases 20 - i,
        {
            let b = self.bytes[i];
            let ghost before = out@;
            out.push(hex_digit(b / 16));
            out.push(hex_digit(b % 16));
            proof {
                let pre = self.bytes@.subrange(0, i as int);
                let post = self.bytes@.subrange(0, i + 1);
                assert(hex_encode(post) =~= hex_encode(pre).push(hex_char(b as int / 16)).push(
                    hex_char(b as int % 16),
                )) by {
                    assert forall|k: int| 0 <= k < 2 * i implies hex_encode(post)[k] == hex_encode(
                        pre,
                    )[k] by {
                        assert(post[k / 2] == pre[k / 2]);
                    }
                }
            }
            i = i + 1;
        }
        proof {
            assert(self.bytes@.subrange(0, 20) =~= self.bytes@);
        }
        out
    }
}

proof fn lemma_hex_digits_of_digits(s: Seq<char>)
    requires
        forall|i: int| 0 <= i < s.len() ==> is_hex_digit(#[trigger] s[i]),
    ensures
        hex_digits(s) == s,
    decreases s.len(),
{
    reveal(Seq::filter);
    if s.len() > 0 {
        lemma_hex_digits_of_digits(s.drop_last());
        assert(s.drop_last().push(s.last()) =~= s);
    }
}

proof fn lemma_hex_char_val(v: int)
    requires
        0 <= v < 16,
    ensures
        is_hex_digit(hex_char(v)),
        hex_val(hex_char(v)) == v,
        hex_char(v) != 'x',
{
}

/// Formatting an address and parsing the text gives the address back, with the
/// `0x` prefix and without it.
pub proof fn lemma_address_round_trip(a: Address)
    ensures
        parse_address_spec(format_address_spec(a.bytes@)) == Some(a.bytes@),
        parse_address_spec(hex_encode(a.bytes@)) == Some(a.bytes@),
{
    let b = a.bytes@;
    let e = hex_encode(b);
    assert forall|i: int| 0 <= i < e.len() implies is_hex_digit(#[trigger] e[i]) by {
        lemma_hex_char_val(b[i / 2] as int / 16);
        lemma_hex_char_val(b[i / 2] as int % 16);
    }
    assert forall|i: int| 0 <= i < 20 implies decode_hex(e)[i] == b[i] by {
        lemma_hex_char_val(b[i] as int / 16);
        lemma_hex_char_val(b[i] as int % 16);
        assert((2 * i) / 2 == i);
        assert((2 * i + 1) / 2 == i);
    }
    assert(decode_hex(e) =~= b);
    assert(format_address_spec(b).subrange(2, 42) =~= e);
    lemma_hex_char_val(b[0] as int % 16);
    assert(strip_0x(e) == e);
}

} // verus!
