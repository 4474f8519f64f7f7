//! Internet addresses as the request layer reads them: the text of an IPv4
//! address, and which addresses lead back into the service's own network.

use crate::text::{chars_of, decimal, digit_text};
use vstd::prelude::*;

verus! {

/// An internet address.
#[derive(Debug, Clone, Copy)]
pub enum IpAddress {
    /// The four octets of an IPv4 address, first to last.
    V4([u8; 4]),
    /// The eight segments of an IPv6 address, first to last.
    V6([u16; 8]),
}

/// An IPv4 address that must not be scraped: loopback (127.0.0.0/8), private
/// (10.0.0.0/8, 172.16.0.0/12, 192.168.0.0/16), link-local (169.254.0.0/16),
/// broadcast (255.255.255.255) or unspecified (0.0.0.0).
pub open spec fn private_v4(octets: Seq<u8>) -> bool {
    ||| octets[0] == 127
    ||| octets[0] == 10
    ||| (octets[0] == 172 && 16 <= octets[1] <= 31)
    ||| (octets[0] == 192 && octets[1] == 168)
    ||| (octets[0] == 169 && octets[1] == 254)
    ||| (octets[0] == 255 && octets[1] == 255 && octets[2] == 255 && octets[3] == 255)
    ||| (octets[0] == 0 && octets[1] == 0 && octets[2] == 0 && octets[3] == 0)
}

/// An IPv6 address that must not be scraped: loopback (::1) or unspecified
/// (::).
pub open spec fn private_v6(segments: Seq<u16>) -> bool {
    &&& forall|i: int| 0 <= i < 7 ==> segments[i] == 0
    &&& (segments[7] == 0 || segments[7] == 1)
}

/// An address that must not be scraped.
pub open spec fn private_address(ip: IpAddress) -> bool {
    match ip {
        IpAddress::V4(octets) => private_v4(octets@),
        IpAddress::V6(segments) => private_v6(segments@),
    }
}

/// A decimal digit.
pub open spec fn is_digit(c: char) -> bool {
    '0' <= c <= '9'
}

/// The value of a decimal digit.
pub open spec fn digit_value(c: char) -> int {
    c as int - '0' as int
}

/// A digit stands at position `i`.
pub open spec fn digit_at(text: Seq<char>, i: int) -> bool {
    0 <= i < text.len() && is_digit(text[i])
}

/// The octet that is written at position `start`, and the position behind
/// it: one to three digits that no digit follows, without a leading zero
/// unless the octet is a single `0`, and of a value up to 255.
pub open spec fn octet_at(text: Seq<char>, start: int) -> Option<(u8, int)> {
    if !digit_at(text, start) {
        None
    } else if !digit_at(text, start + 1) {
        Some((digit_value(text[start]) as u8, start + 1))
    } else if text[start] == '0' {
        None
    } else if !digit_at(text, start + 2) {
        Some(((digit_value(text[start]) * 10 + digit_value(text[start + 1])) as u8, start + 2))
    } else if !digit_at(text, start + 3) {
        let value = digit_value(text[start]) * 100 + digit_value(text[start + 1]) * 10
            + digit_value(text[start + 2]);
        if value <= 255 {
            Some((value as u8, start + 3))
        } else {
            None
        }
    } else {
        None
    }
}

/// A dot stands at position `i`.
pub open spec fn dot_at(text: Seq<char>, i: int) -> bool {
    0 <= i < text.len() && text[i] == '.'
}

/// The IPv4 address that a text writes: four octets with a dot between each
/// two and nothing else.
pub open spec fn ipv4_of(text: Seq<char>) -> Option<Seq<u8>> {
    match octet_at(text, 0) {
        Some((first, end1)) if dot_at(text, end1) => match octet_at(text, end1 + 1) {
            Some((second, end2)) if dot_at(text, end2) => match octet_at(text, end2 + 1) {
                Some((third, end3)) if dot_at(text, end3) => match octet_at(text, end3 + 1) {
                    Some((fourth, end4)) if end4 == text.len() => Some(
                        seq![first, second, third, fourth],
                    ),
                    _ => None,
                },
                _ => None,
            },
            _ => None,
        },
        _ => None,
    }
}

/// An address in dotted decimal: its four octets, each in decimal without
/// leading zeros, with a dot between each two.
pub open spec fn dotted(octets: Seq<u8>) -> Seq<char> {
    decimal(octets[0] as nat) + seq!['.'] + decimal(octets[1] as nat) + seq!['.'] + decimal(
        octets[2] as nat,
    ) + seq!['.'] + decimal(octets[3] as nat)
}

/// The character of a decimal digit.
pub open spec fn digit_char(digit: nat) -> char {
    if digit == 0 {
        '0'
    } else if digit == 1 {
        '1'
    } else if digit == 2 {
        '2'
    } else if digit == 3 {
        '3'
    } else if digit == 4 {
        '4'
    } else if digit == 5 {
        '5'
    } else if digit == 6 {
        '6'
    } else if digit == 7 {
        '7'
    } else if digit == 8 {
        '8'
    } else {
        '9'
    }
}

/// A digit is written as its one character.
proof fn lemma_digit_text(digit: nat)
    requires
        digit < 10,
    ensures
        digit_text(digit) == seq![digit_char(digit)],
        is_digit(digit_char(digit)),
        digit_value(digit_char(digit)) == digit,
{
    reveal_strlit("0");
    reveal_strlit("1");
    reveal_strlit("2");
    reveal_strlit("3");
    reveal_strlit("4");
    reveal_strlit("5");
    reveal_strlit("6");
    reveal_strlit("7");
    reveal_strlit("8");
    reveal_strlit("9");
    assert(digit_text(digit) =~= seq![digit_char(digit)]);
}

/// A digit character is the character of its value.
proof fn lemma_digit_char(c: char)
    requires
        is_digit(c),
    ensures
        0 <= digit_value(c) < 10,
        digit_char(digit_value(c) as nat) == c,
{
}

/// How an octet is written: in one, two or three digits.
proof fn lemma_octet_text(value: u8)
    ensures
        value < 10 ==> decimal(value as nat) == seq![digit_char(value as nat)],
        10 <= value < 100 ==> decimal(value as nat) == seq![
            digit_char(value as nat / 10),
            digit_char(value as nat % 10),
        ],
        100 <= value ==> decimal(value as nat) == seq![
            digit_char(value as nat / 100),
            digit_char(value as nat / 10 % 10),
            digit_char(value as nat % 10),
        ],
{
    let n = value as nat;
    reveal_with_fuel(decimal, 3);
    lemma_digit_text(n % 10);
    if n < 10 {
        lemma_digit_text(n);
    } else if n < 100 {
        lemma_digit_text(n / 10);
        assert(decimal(n) =~= seq![digit_char(n / 10), digit_char(n % 10)]);
    } else {
        lemma_digit_text(n / 100);
        lemma_digit_text(n / 10 % 10);
        assert(n / 10 / 10 == n / 100);
        assert(decimal(n / 10) =~= seq![digit_char(n / 100), digit_char(n / 10 % 10)]);
        assert(decimal(n) =~= seq![
            digit_char(n / 100),
            digit_char(n / 10 % 10),
            digit_char(n % 10),
        ]);
    }
}

/// What `octet_at` reads is the octet in decimal, and no digit follows it.
pub proof fn lemma_octet_at_is_decimal(text: Seq<char>, start: int)
    requires
        octet_at(text, start) is Some,
    ensures
        match octet_at(text, start) {
            Some((value, end)) => {
                &&& start < end <= text.len()
                &&& text.subrange(start, end) == decimal(value as nat)
                &&& !digit_at(text, end)
            },
            None => false,
        },
{
    let (value, end) = octet_at(text, start).unwrap();
    lemma_octet_text(value);
    lemma_digit_char(text[start]);
    if digit_at(text, start + 1) {
        lemma_digit_char(text[start + 1]);
        if digit_at(text, start + 2) {
            lemma_digit_char(text[start + 2]);
        }
    }
    assert(text.subrange(start, end) =~= decimal(value as nat));
}

/// An octet in decimal that no digit follows is what `octet_at` reads.
pub proof fn lemma_decimal_is_read(text: Seq<char>, start: int, value: u8)
    requires
        0 <= start,
        start + decimal(value as nat).len() <= text.len(),
        text.subrange(start, start + decimal(value as nat).len()) == decimal(value as nat),
        !digit_at(text, start + decimal(value as nat).len()),
    ensures
        octet_at(text, start) == Some((value, start + decimal(value as nat).len())),
{
    let n = value as nat;
    let written = decimal(n);
    lemma_octet_text(value);
    lemma_digit_text(n % 10);
    assert forall|i: int| 0 <= i < written.len() implies text[start + i] == written[i] by {
        assert(text.subrange(start, start + written.len())[i] == text[start + i]);
    }
    if n < 10 {
        lemma_digit_text(n);
        assert(text[start] == written[0]);
    } else if n < 100 {
        lemma_digit_text(n / 10);
        assert(text[start] == written[0]);
        assert(text[start + 1] == written[1]);
    } else {
        lemma_digit_text(n / 100);
        lemma_digit_text(n / 10 % 10);
        assert(text[start] == written[0]);
        assert(text[start + 1] == written[1]);
        assert(text[start + 2] == written[2]);
    }
}

/// A piece of a text stands where the pieces before it end.
proof fn lemma_piece_of(before: Seq<char>, piece: Seq<char>, after: Seq<char>)
    ensures
        (before + piece + after).len() == before.len() + piece.len() + after.len(),
        (before + piece + after).subrange(
            before.len() as int,
            (before.len() + piece.len()) as int,
        ) == piece,
        after.len() > 0 ==> (before + piece + after)[(before.len() + piece.len()) as int]
            == after[0],
{
    let whole = before + piece + after;
    assert(whole.subrange(before.len() as int, (before.len() + piece.len()) as int) =~= piece);
}

/// What is read as an address is that address in dotted decimal.
pub proof fn lemma_read_is_dotted(text: Seq<char>)
    requires
        ipv4_of(text) is Some,
    ensures
        ipv4_of(text).unwrap().len() == 4,
        text == dotted(ipv4_of(text).unwrap()),
{
    let dot = seq!['.'];
    let octets = ipv4_of(text).unwrap();
    let (first, end1) = octet_at(text, 0).unwrap();
    let (second, end2) = octet_at(text, end1 + 1).unwrap();
    let (third, end3) = octet_at(text, end2 + 1).unwrap();
    let (fourth, end4) = octet_at(text, end3 + 1).unwrap();
    lemma_octet_at_is_decimal(text, 0);
    lemma_octet_at_is_decimal(text, end1 + 1);
    lemma_octet_at_is_decimal(text, end2 + 1);
    lemma_octet_at_is_decimal(text, end3 + 1);
    assert(octets == seq![first, second, third, fourth]);
    assert(text =~= text.subrange(0, end1) + dot + text.subrange(end1 + 1, end2) + dot
        + text.subrange(end2 + 1, end3) + dot + text.subrange(end3 + 1, end4));
}

/// An address in dotted decimal is read as that address.
pub proof fn lemma_dotted_is_read(octets: Seq<u8>)
    requires
        octets.len() == 4,
    ensures
        ipv4_of(dotted(octets)) == Some(octets),
{
    let dot = seq!['.'];
    let text = dotted(octets);
    let a = decimal(octets[0] as nat);
    let b = decimal(octets[1] as nat);
    let c = decimal(octets[2] as nat);
    let d = decimal(octets[3] as nat);
    let end1 = a.len() as int;
    let end2 = end1 + 1 + b.len();
    let end3 = end2 + 1 + c.len();
    let end4 = end3 + 1 + d.len();
    let none = Seq::<char>::empty();
    assert(text =~= none + a + (dot + b + dot + c + dot + d));
    lemma_piece_of(none, a, dot + b + dot + c + dot + d);
    assert(text =~= (a + dot) + b + (dot + c + dot + d));
    lemma_piece_of(a + dot, b, dot + c + dot + d);
    assert(text =~= (a + dot + b + dot) + c + (dot + d));
    lemma_piece_of(a + dot + b + dot, c, dot + d);
    assert(text =~= (a + dot + b + dot + c + dot) + d + none);
    lemma_piece_of(a + dot + b + dot + c + dot, d, none);
    assert(text.len() == end4);
    assert(dot_at(text, end1));
    assert(dot_at(text, end2));
    assert(dot_at(text, end3));
    lemma_decimal_is_read(text, 0, octets[0]);
    lemma_decimal_is_read(text, end1 + 1, octets[1]);
    lemma_decimal_is_read(text, end2 + 1, octets[2]);
    lemma_decimal_is_read(text, end3 + 1, octets[3]);
    assert(octets =~= seq![octets[0], octets[1], octets[2], octets[3]]);
}

/// A text is read as an address exactly if it is that address in dotted
/// decimal.
pub proof fn lemma_ipv4_of_is_dotted(text: Seq<char>, octets: Seq<u8>)
    requires
        octets.len() == 4,
    ensures
        ipv4_of(text) == Some(octets) <==> text == dotted(octets),
{
    if ipv4_of(text) == Some(octets) {
        lemma_read_is_dotted(text);
    }
    if text == dotted(octets) {
        lemma_dotted_is_read(octets);
    }
}

/// Whether a character is a decimal digit.
fn char_is_digit(c: char) -> (digit: bool)
    ensures
        digit == is_digit(c),
{
    c >= '0' && c <= '9'
}

/// Reads the octet that is written at position `start`.
fn read_octet(text: &Vec<char>, start: usize) -> (read: Option<(u8, usize)>)
    requires
        start <= text.len(),
    ensures
        match read {
            Some((value, end)) => octet_at(text@, start as int) == Some((value, end as int))
                && start < end <= text.len(),
            None => octet_at(text@, start as int) is None,
        },
{
    let mut end: usize = start;
    let mut value: u32 = 0;
    while end < text.len() && end - start < 4 && char_is_digit(text[end])
        invariant
            start <= end <= text.len(),
            end - start <= 4,
            forall|i: int| start <= i < end ==> digit_at(text@, i),
            end - start == 0 ==> value == 0,
            end - start == 1 ==> value == digit_value(text@[start as int]),
            end - start == 2 ==> value == digit_value(text@[start as int]) * 10 + digit_value(
                text@[start + 1],
            ),
            end - start == 3 ==> value == digit_value(text@[start as int]) * 100 + digit_value(
                text@[start + 1],
            ) * 10 + digit_value(text@[start + 2]),
            end - start == 1 ==> value <= 9,
            end - start == 2 ==> value <= 99,
            end - start == 3 ==> value <= 999,
            end - start == 4 ==> value <= 9999,
        decreases text.len() - end,
    {
        let digit: u32 = text[end] as u32 - '0' as u32;
        assert(digit == digit_value(text@[end as int]) && digit <= 9);
        value = value * 10 + digit;
        end += 1;
    }
    let count = end - start;
    if count == 0 || count > 3 {
        return None;
    }
    if count > 1 && text[start] == '0' {
        return None;
    }
    if value > 255 {
        return None;
    }
    Some((value as u8, end))
}

/// Whether a dot stands at position `i`.
fn has_dot(text: &Vec<char>, i: usize) -> (dot: bool)
    ensures
        dot == dot_at(text@, i as int),
{
    i < text.len() && text[i] == '.'
}

/// Reads a host as an IPv4 address in dotted decimal: the address whose
/// dotted decimal the host is, if there is one.
pub fn parse_ipv4(host: &str) -> (address: Option<[u8; 4]>)
    ensures
        match address {
            Some(octets) => host@ == dotted(octets@) && ipv4_of(host@) == Some(octets@),
            None => ipv4_of(host@) is None && forall|octets: Seq<u8>|
                octets.len() == 4 ==> host@ != #[trigger] dotted(octets),
        },
{
    proof {
        if ipv4_of(host@) is Some {
            lemma_read_is_dotted(host@);
        }
        assert forall|octets: Seq<u8>| octets.len() == 4 && ipv4_of(host@) is None implies host@
            != #[trigger] dotted(octets) by {
            lemma_dotted_is_read(octets);
        }
    }
    let text = chars_of(host);
    let (first, end1) = match read_octet(&text, 0) {
        Some(read) => read,
        None => {
            return None;
        },
    };
    if !has_dot(&text, end1) {
        return None;
    }
    let (second, end2) = match read_octet(&text, end1 + 1) {
        Some(read) => read,
        None => {
            return None;
        },
    };
    if !has_dot(&text, end2) {
        return None;
    }
    let (third, end3) = match read_octet(&text, end2 + 1) {
        Some(read) => read,
        None => {
            return None;
        },
    };
    if !has_dot(&text, end3) {
        return None;
    }
    let (fourth, end4) = match read_octet(&text, end3 + 1) {
        Some(read) => read,
        None => {
            return None;
        },
    };
    if end4 != text.len() {
        return None;
    }
    let octets = [first, second, third, fourth];
    assert(octets@ =~= seq![first, second, third, fourth]);
    Some(octets)
}

} // verus!
