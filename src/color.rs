//! Colors as the light devices understand them, and the hex notation that
//! pattern editors use to write them.
use vstd::prelude::*;
use vstd::string::StrSliceExecFns;

verus! {

/// An RGB triple of 8-bit channels.
#[derive(Clone, Copy, Debug, PartialEq, Eq, Structural)]
pub struct Color {
    pub red: u8,
    pub green: u8,
    pub blue: u8,
}

impl Color {
    /// The color that an unlit channel shows.
    pub fn black() -> (c: Color)
        ensures
            c == (Color { red: 0, green: 0, blue: 0 }),
    {
        Color { red: 0, green: 0, blue: 0 }
    }

    pub fn rgb(red: u8, green: u8, blue: u8) -> (c: Color)
        ensures
            c == (Color { red, green, blue }),
    {
        Color { red, green, blue }
    }
}

/// The value of one hexadecimal digit, either case.
pub open spec fn hex_digit(c: char) -> Option<u8> {
    if '0' <= c && c <= '9' {
        Some((c as u32 - '0' as u32) as u8)
    } else if 'a' <= c && c <= 'f' {
        Some((c as u32 - 'a' as u32 + 10) as u8)
    } else if 'A' <= c && c <= 'F' {
        Some((c as u32 - 'A' as u32 + 10) as u8)
    } else {
        None
    }
}

/// The byte that two characters spell in base 16: two digits, or a `+` sign
/// followed by a single digit.
pub open spec fn hex_pair(a: char, b: char) -> Option<u8> {
    if a == '+' {
        hex_digit(b)
    } else {
        match (hex_digit(a), hex_digit(b)) {
            (Some(hi), Some(lo)) => Some((hi * 16 + lo) as u8),
            _ => None,
        }
    }
}

/// The number of character pairs that follow the leading marker character:
/// pair `i` is made of the characters at `2i + 1` and `2i + 2`.
pub open spec fn hex_pair_count(s: Seq<char>) -> int {
    if s.len() < 3 {
        0
    } else {
        (s.len() - 1) / 2
    }
}

/// The bytes spelled by the first `k` pairs, leaving out the pairs that spell none.
pub open spec fn hex_bytes(s: Seq<char>, k: int) -> Seq<u8>
    decreases k,
{
    if k <= 0 {
        seq![]
    } else {
        let before = hex_bytes(s, k - 1);
        match hex_pair(s[2 * k - 1], s[2 * k]) {
            Some(v) => before.push(v),
            None => before,
        }
    }
}

/// The color that a hex string such as `#ff8000` names: the first three bytes
/// that its character pairs spell, if it spells three.
pub open spec fn hex_color(s: Seq<char>) -> Option<(u8, u8, u8)> {
    let bytes = hex_bytes(s, hex_pair_count(s));
    if bytes.len() >= 3 {
        Some((bytes[0], bytes[1], bytes[2]))
    } else {
        None
    }
}

fn hex_digit_exec(c: char) -> (r: Option<u8>)
    ensures
        r == hex_digit(c),
{
    if '0' <= c && c <= '9' {
        Some((c as u32 - '0' as u32) as u8)
    } else if 'a' <= c && c <= 'f' {
        Some((c as u32 - 'a' as u32 + 10) as u8)
    } else if 'A' <= c && c <= 'F' {
        Some((c as u32 - 'A' as u32 + 10) as u8)
    } else {
        None
    }
}

fn hex_pair_exec(a: char, b: char) -> (r: Option<u8>)
    ensures
        r == hex_pair(a, b),
{
    if a == '+' {
        hex_digit_exec(b)
    } else {
        match (hex_digit_exec(a), hex_digit_exec(b)) {
            (Some(hi), Some(lo)) => Some(hi * 16 + lo),
            _ => None,
        }
    }
}

/// Reads a color written as a marker character followed by hex digit pairs
/// (`#ff0000` is red). Pairs that are not hex are passed over; the first
/// three that are give red, green and blue.
pub fn parse_hex(input: &String) -> (r: Option<(u8, u8, u8)>)
    ensures
        r == hex_color(input@),
{
    let s = input.as_str();
    let n = s.unicode_len();
    let pairs: usize = if n < 3 { 0 } else { (n - 1) / 2 };
    let mut bytes: Vec<u8> = Vec::new();
    let mut k: usize = 0;
    while k < pairs
        invariant
            s@ == input@,
            n == s@.len(),
            pairs == hex_pair_count(s@),
            k <= pairs,
            bytes@ == hex_bytes(s@, k as int),
        decreases pairs - k,
    {
        let a = s.get_char(2 * k + 1);
        let b = s.get_char(2 * k + 2);
        if let Some(v) = hex_pair_exec(a, b) {
            bytes.push(v);
        }
        k = k + 1;
    }
    if bytes.len() >= 3 {
        Some((bytes[0], bytes[1], bytes[2]))
    } else {
        None
    }
}

} // verus!
