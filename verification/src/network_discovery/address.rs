//! Network addresses as plain values, and their text form.
//!
//! Discovery runs over IPv4 broadcast, so a peer's address is an IPv4 address.
//! On the wire it is written in dotted decimal notation, each of the four
//! numbers without leading zeros: `192.168.1.10`.

use vstd::prelude::*;
use vstd::string::{StrSliceExecFns, StringExecFns};

verus! {

/// An IPv4 address.
#[derive(Debug, Clone, Copy, PartialEq, Eq, Hash, Structural)]
pub struct Ipv4Address {
    pub a: u8,
    pub b: u8,
    pub c: u8,
    pub d: u8,
}

/// Where a datagram came from or goes to.
#[derive(Debug, Clone, Copy, PartialEq, Eq, Hash, Structural)]
pub struct Endpoint {
    pub ip: Ipv4Address,
    pub port: u16,
}

/// The character of a decimal digit.
pub open spec fn digit_char(d: int) -> char {
    if d == 0 {
        '0'
    } else if d == 1 {
        '1'
    } else if d == 2 {
        '2'
    } else if d == 3 {
        '3'
    } else if d == 4 {
        '4'
    } else if d == 5 {
        '5'
    } else if d == 6 {
        '6'
    } else if d == 7 {
        '7'
    } else if d == 8 {
        '8'
    } else {
        '9'
    }
}

/// A number below 256 in decimal, without leading zeros.
pub open spec fn octet_text(n: u8) -> Seq<char> {
    if n < 10 {
        seq![digit_char(n as int)]
    } else if n < 100 {
        seq![digit_char(n as int / 10), digit_char(n as int % 10)]
    } else {
        seq![digit_char(n as int / 100), digit_char(n as int / 10 % 10), digit_char(n as int % 10)]
    }
}

/// An address in dotted decimal notation.
pub open spec fn ipv4_text(address: Ipv4Address) -> Seq<char> {
    octet_text(address.a) + seq!['.'] + octet_text(address.b) + seq!['.'] + octet_text(address.c)
        + seq!['.'] + octet_text(address.d)
}

/// The address that a text denotes: the one whose dotted decimal notation
/// the text is, if there is one.
pub open spec fn address_of_text(text: Seq<char>) -> Option<Ipv4Address> {
    if exists|address: Ipv4Address| text == ipv4_text(address) {
        Some(choose|address: Ipv4Address| text == ipv4_text(address))
    } else {
        None
    }
}

spec fn is_digit(c: char) -> bool {
    c == '0' || c == '1' || c == '2' || c == '3' || c == '4' || c == '5' || c == '6' || c == '7'
        || c == '8' || c == '9'
}

spec fn digit_value(c: char) -> int {
    if c == '0' {
        0
    } else if c == '1' {
        1
    } else if c == '2' {
        2
    } else if c == '3' {
        3
    } else if c == '4' {
        4
    } else if c == '5' {
        5
    } else if c == '6' {
        6
    } else if c == '7' {
        7
    } else if c == '8' {
        8
    } else {
        9
    }
}

spec fn digit_at(text: Seq<char>, i: int) -> bool {
    0 <= i < text.len() && is_digit(text[i])
}

/// The number written at `pos` and the place behind it: one to three digits
/// that no further digit follows, without a leading zero, below 256.
spec fn octet_at(text: Seq<char>, pos: int) -> Option<(u8, int)> {
    if !digit_at(text, pos) {
        None
    } else if !digit_at(text, pos + 1) {
        Some((digit_value(text[pos]) as u8, pos + 1))
    } else if !digit_at(text, pos + 2) {
        if text[pos] == '0' {
            None
        } else {
            Some(((10 * digit_value(text[pos]) + digit_value(text[pos + 1])) as u8, pos + 2))
        }
    } else if !digit_at(text, pos + 3) {
        let n = 100 * digit_value(text[pos]) + 10 * digit_value(text[pos + 1]) + digit_value(
            text[pos + 2],
        );
        if text[pos] == '0' || n > 255 {
            None
        } else {
            Some((n as u8, pos + 3))
        }
    } else {
        None
    }
}

spec fn dot_at(text: Seq<char>, i: int) -> bool {
    0 <= i < text.len() && text[i] == '.'
}

/// The address read from a text, number by number.
spec fn scanned(text: Seq<char>) -> Option<Ipv4Address> {
    match octet_at(text, 0) {
        Some((a, dot1)) => if dot_at(text, dot1) {
            match octet_at(text, dot1 + 1) {
                Some((b, dot2)) => if dot_at(text, dot2) {
                    match octet_at(text, dot2 + 1) {
                        Some((c, dot3)) => if dot_at(text, dot3) {
                            match octet_at(text, dot3 + 1) {
                                Some((d, end)) => if end == text.len() {
                                    Some(Ipv4Address { a, b, c, d })
                                } else {
                                    None
                                },
                                None => None,
                            }
                        } else {
                            None
                        },
                        None => None,
                    }
                } else {
                    None
                },
                None => None,
            }
        } else {
            None
        },
        None => None,
    }
}

/// A number that stands in a text, with no digit behind it, is read there.
proof fn lemma_octet_at(text: Seq<char>, pos: int, n: u8)
    requires
        0 <= pos,
        pos + octet_text(n).len() <= text.len(),
        text.subrange(pos, pos + octet_text(n).len()) == octet_text(n),
        !digit_at(text, pos + octet_text(n).len()),
    ensures
        octet_at(text, pos) == Some((n, pos + octet_text(n).len())),
{
    let written = octet_text(n);
    let part = text.subrange(pos, pos + written.len());
    assert forall|i: int| 0 <= i < written.len() implies text[pos + i] == written[i] by {
        assert(part[i] == text[pos + i]);
    }
    assert(text[pos] == written[0]);
}

/// Scanning the notation of an address gives the address.
proof fn lemma_scanned(address: Ipv4Address)
    ensures
        scanned(ipv4_text(address)) == Some(address),
{
    let ta = octet_text(address.a);
    let tb = octet_text(address.b);
    let tc = octet_text(address.c);
    let td = octet_text(address.d);
    let text = ipv4_text(address);
    let dot1 = ta.len() as int;
    let dot2 = dot1 + 1 + tb.len();
    let dot3 = dot2 + 1 + tc.len();
    let end = dot3 + 1 + td.len();
    assert(text.subrange(0, dot1) =~= ta);
    assert(text.subrange(dot1 + 1, dot2) =~= tb);
    assert(text.subrange(dot2 + 1, dot3) =~= tc);
    assert(text.subrange(dot3 + 1, end) =~= td);
    lemma_octet_at(text, 0, address.a);
    lemma_octet_at(text, dot1 + 1, address.b);
    lemma_octet_at(text, dot2 + 1, address.c);
    lemma_octet_at(text, dot3 + 1, address.d);
}

/// Two addresses with the same notation are the same address.
pub proof fn lemma_ipv4_text_injective(x: Ipv4Address, y: Ipv4Address)
    requires
        ipv4_text(x) == ipv4_text(y),
    ensures
        x == y,
{
    lemma_scanned(x);
    lemma_scanned(y);
}

/// The notation of an address denotes that address.
pub proof fn lemma_address_text_round_trip(address: Ipv4Address)
    ensures
        address_of_text(ipv4_text(address)) == Some(address),
{
    let text = ipv4_text(address);
    let chosen = choose|other: Ipv4Address| text == ipv4_text(other);
    lemma_ipv4_text_injective(chosen, address);
}

fn digit_str(d: u8) -> (r: &'static str)
    requires
        d < 10,
    ensures
        r@ == seq![digit_char(d as int)],
{
    proof {
        reveal_strlit("0");
        reveal_strlit("1");
        reveal_strlit("2");
        reveal_strlit("3");
        reveal_strlit("4");
        reveal_strlit("5");
        reveal_strlit("6");
        reveal_strlit("7");
        reveal_strlit("8");
        reveal_strlit("9");
    }
    let r = if d == 0 {
        "0"
    } else if d == 1 {
        "1"
    } else if d == 2 {
        "2"
    } else if d == 3 {
        "3"
    } else if d == 4 {
        "4"
    } else if d == 5 {
        "5"
    } else if d == 6 {
        "6"
    } else if d == 7 {
        "7"
    } else if d == 8 {
        "8"
    } else {
        "9"
    };
    r
}

fn append_octet(text: &mut String, n: u8)
    ensures
        final(text)@ == old(text)@ + octet_text(n),
{
    if n >= 100 {
        text.append(digit_str(n / 100));
        text.append(digit_str(n / 10 % 10));
        text.append(digit_str(n % 10));
    } else if n >= 10 {
        text.append(digit_str(n / 10));
        text.append(digit_str(n % 10));
    } else {
        text.append(digit_str(n));
    }
}

fn append_dot(text: &mut String)
    ensures
        final(text)@ == old(text)@ + seq!['.'],
{
    proof {
        reveal_strlit(".");
    }
    text.append(".");
}

fn digit_of(c: char) -> (r: Option<u8>)
    ensures
        match r {
            Some(d) => is_digit(c) && d == digit_value(c),
            None => !is_digit(c),
        },
{
    match c {
        '0' => Some(0),
        '1' => Some(1),
        '2' => Some(2),
        '3' => Some(3),
        '4' => Some(4),
        '5' => Some(5),
        '6' => Some(6),
        '7' => Some(7),
        '8' => Some(8),
        '9' => Some(9),
        _ => None,
    }
}

fn read_digit(text: &str, len: usize, pos: usize) -> (r: Option<u8>)
    requires
        len == text@.len(),
    ensures
        match r {
            Some(d) => digit_at(text@, pos as int) && d == digit_value(text@[pos as int]),
            None => !digit_at(text@, pos as int),
        },
{
    if pos < len {
        digit_of(text.get_char(pos))
    } else {
        None
    }
}

fn read_dot(text: &str, len: usize, pos: usize) -> (r: bool)
    requires
        len == text@.len(),
    ensures
        r == dot_at(text@, pos as int),
{
    pos < len && text.get_char(pos) == '.'
}

fn read_octet(text: &str, len: usize, pos: usize) -> (r: Option<(u8, usize)>)
    requires
        len == text@.len(),
        pos <= len,
    ensures
        match r {
            Some((n, end)) => octet_at(text@, pos as int) == Some((n, end as int)) && end <= len,
            None => octet_at(text@, pos as int) is None,
        },
{
    let d0 = match read_digit(text, len, pos) {
        Some(d) => d,
        None => {
            return None;
        },
    };
    let d1 = match read_digit(text, len, pos + 1) {
        Some(d) => d,
        None => {
            return Some((d0, pos + 1));
        },
    };
    let d2 = match read_digit(text, len, pos + 2) {
        Some(d) => d,
        None => {
            if d0 == 0 {
                return None;
            }
            return Some((10 * d0 + d1, pos + 2));
        },
    };
    if read_digit(text, len, pos + 3).is_some() {
        return None;
    }
    if d0 == 0 || d0 > 2 {
        return None;
    }
    let n: u16 = 100 * (d0 as u16) + 10 * (d1 as u16) + (d2 as u16);
    if n > 255 {
        return None;
    }
    Some((n as u8, pos + 3))
}

fn scan(text: &str) -> (r: Option<Ipv4Address>)
    ensures
        r == scanned(text@),
{
    let len = text.unicode_len();
    let (a, dot1) = match read_octet(text, len, 0) {
        Some(found) => found,
        None => {
            return None;
        },
    };
    if !read_dot(text, len, dot1) {
        return None;
    }
    let (b, dot2) = match read_octet(text, len, dot1 + 1) {
        Some(found) => found,
        None => {
            return None;
        },
    };
    if !read_dot(text, len, dot2) {
        return None;
    }
    let (c, dot3) = match read_octet(text, len, dot2 + 1) {
        Some(found) => found,
        None => {
            return None;
        },
    };
    if !read_dot(text, len, dot3) {
        return None;
    }
    let (d, end) = match read_octet(text, len, dot3 + 1) {
        Some(found) => found,
        None => {
            return None;
        },
    };
    if end != len {
        return None;
    }
    Some(Ipv4Address { a, b, c, d })
}

impl Ipv4Address {
    /// The address in dotted decimal notation.
    pub fn to_text(&self) -> (r: String)
        ensures
            r@ == ipv4_text(*self),
    {
        let mut text = String::new();
        append_octet(&mut text, self.a);
        append_dot(&mut text);
        append_octet(&mut text, self.b);
        append_dot(&mut text);
        append_octet(&mut text, self.c);
        append_dot(&mut text);
        append_octet(&mut text, self.d);
        text
    }

    /// Reads an address in dotted decimal notation. Exactly the texts that
    /// [`Ipv4Address::to_text`] writes are accepted: four numbers below 256
    /// without leading zeros, with a dot between two of them and nothing
    /// around them.
    pub fn parse(text: &str) -> (r: Option<Ipv4Address>)
        ensures
            r == address_of_text(text@),
    {
        proof {
            assert forall|x: Ipv4Address| text@ == ipv4_text(x) implies scanned(text@) == Some(
                x,
            ) by {
                lemma_scanned(x);
            }
        }
        match scan(text) {
            Some(address) => {
                let written = address.to_text();
                let given = text.to_owned();
                if written == given {
                    proof {
                        lemma_address_text_round_trip(address);
                    }
                    Some(address)
                } else {
                    None
                }
            },
            None => None,
        }
    }
}

} // verus!
