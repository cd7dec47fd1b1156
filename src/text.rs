//! The line and field structure of pattern text, read as bytes.
//!
//! Every mark that the pattern grammar uses is ASCII, and no byte of a
//! multi-byte UTF-8 character is ASCII, so splitting the bytes of a text is
//! the same as splitting its characters.
use vstd::prelude::*;
use vstd::string::StrSliceExecFns;
use vstd::utf8::{decode_utf8, valid_utf8};

verus! {

pub open spec fn is_blank(b: u8) -> bool {
    b == 0x20 || b == 0x09 || b == 0x0c || b == 0x0d
}

pub open spec fn is_digit(b: u8) -> bool {
    0x30 <= b && b <= 0x39
}

/// The value of a run of decimal digits.
pub open spec fn digits_value(d: Seq<u8>) -> int
    decreases d.len(),
{
    if d.len() == 0 {
        0
    } else {
        digits_value(d.drop_last()) * 10 + (d.last() - 0x30)
    }
}

/// A field without its optional leading `+`.
pub open spec fn unsigned_part(s: Seq<u8>) -> Seq<u8> {
    if s.len() > 0 && s[0] == 0x2b {
        s.drop_first()
    } else {
        s
    }
}

/// One or more decimal digits and nothing else.
pub open spec fn all_digits(d: Seq<u8>) -> bool {
    d.len() > 0 && forall|i: int| 0 <= i < d.len() ==> is_digit(#[trigger] d[i])
}

/// The byte that a field spells in decimal: one or more digits, after an
/// optional `+`, of value at most 255.
pub open spec fn decimal_u8(s: Seq<u8>) -> Option<u8> {
    let d = unsigned_part(s);
    if all_digits(d) && digits_value(d) <= 255 {
        Some(digits_value(d) as u8)
    } else {
        None
    }
}

/// A field made of a marker byte followed by a decimal byte (`F12`).
pub open spec fn marked_u8(s: Seq<u8>, mark: u8) -> Option<u8> {
    if s.len() > 0 && s[0] == mark {
        decimal_u8(s.drop_first())
    } else {
        None
    }
}

/// The fields of `s` from position `i` on, where `s[t..i]` is a field
/// already begun (none when `t == i`). Fields are maximal runs of bytes that
/// are not blank.
pub open spec fn fields_from(s: Seq<u8>, t: int, i: int) -> Seq<Seq<u8>>
    decreases s.len() - i,
{
    if i >= s.len() {
        if t < i {
            seq![s.subrange(t, i)]
        } else {
            seq![]
        }
    } else if is_blank(s[i]) {
        (if t < i {
            seq![s.subrange(t, i)]
        } else {
            seq![]
        }) + fields_from(s, i + 1, i + 1)
    } else {
        fields_from(s, t, i + 1)
    }
}

/// The blank-separated fields of a line.
pub open spec fn fields(s: Seq<u8>) -> Seq<Seq<u8>> {
    fields_from(s, 0, 0)
}

proof fn lemma_digits_nonneg(d: Seq<u8>)
    requires
        forall|i: int| 0 <= i < d.len() ==> is_digit(#[trigger] d[i]),
    ensures
        digits_value(d) >= 0,
    decreases d.len(),
{
    if d.len() > 0 {
        lemma_digits_nonneg(d.drop_last());
    }
}

/// Reads a field as a decimal byte.
pub fn decimal_u8_exec(s: &[u8]) -> (r: Option<u8>)
    ensures
        r == decimal_u8(s@),
{
    let n = s.len();
    let start: usize = if n > 0 && s[0] == 0x2b {
        1
    } else {
        0
    };
    let ghost d = unsigned_part(s@);
    assert(d =~= s@.subrange(start as int, n as int));
    if start >= n {
        return None;
    }
    let mut acc: u32 = 0;
    let mut i: usize = start;
    while i < n
        invariant
            start <= i <= n,
            n == s@.len(),
            d =~= s@.subrange(start as int, n as int),
            d == unsigned_part(s@),
            forall|j: int| 0 <= j < i - start ==> is_digit(#[trigger] d[j]),
            acc <= 256,
            acc as int == if digits_value(d.take(i - start)) < 256 {
                digits_value(d.take(i - start))
            } else {
                256
            },
        decreases n - i,
    {
        let b = s[i];
        if !(0x30 <= b && b <= 0x39) {
            assert(!is_digit(d[i - start]));
            return None;
        }
        let ghost k = i - start;
        proof {
            assert(d.take(k + 1).drop_last() =~= d.take(k));
            assert(d.take(k + 1).last() == b);
            assert(forall|j: int| 0 <= j < k ==> is_digit(#[trigger] d.take(k)[j]));
            lemma_digits_nonneg(d.take(k));
        }
        acc = acc * 10 + (b - 0x30) as u32;
        if acc > 256 {
            acc = 256;
        }
        i = i + 1;
    }
    assert(d.take(n - start) =~= d);
    if acc <= 255 {
        Some(acc as u8)
    } else {
        None
    }
}

/// Reads a field made of `mark` followed by a decimal byte.
pub fn marked_u8_exec(s: &[u8], mark: u8) -> (r: Option<u8>)
    ensures
        r == marked_u8(s@, mark),
{
    if s.len() > 0 && s[0] == mark {
        let rest = &s[1..s.len()];
        assert(rest@ =~= s@.drop_first());
        decimal_u8_exec(rest)
    } else {
        None
    }
}

/// The bounds of the fields of a line: entry `k` is where field `k` begins and ends.
pub fn field_bounds(line: &[u8]) -> (r: Vec<(usize, usize)>)
    ensures
        r@.len() == fields(line@).len(),
        forall|k: int|
            0 <= k < r@.len() ==> {
                &&& (#[trigger] r@[k]).0 < r@[k].1 <= line@.len()
                &&& line@.subrange(r@[k].0 as int, r@[k].1 as int) == fields(line@)[k]
            },
{
    let n = line.len();
    let mut out: Vec<(usize, usize)> = Vec::new();
    let ghost mut done: Seq<Seq<u8>> = seq![];
    let mut t: usize = 0;
    let mut i: usize = 0;
    while i < n
        invariant
            t <= i <= n,
            n == line@.len(),
            out@.len() == done.len(),
            forall|k: int|
                0 <= k < out@.len() ==> {
                    &&& (#[trigger] out@[k]).0 < out@[k].1 <= n
                    &&& line@.subrange(out@[k].0 as int, out@[k].1 as int) == done[k]
                },
            fields(line@) == done + fields_from(line@, t as int, i as int),
        decreases n - i,
    {
        if line[i] == 0x20 || line[i] == 0x09 || line[i] == 0x0c || line[i] == 0x0d {
            let ghost here = if t < i {
                seq![line@.subrange(t as int, i as int)]
            } else {
                seq![]
            };
            proof {
                assert(fields_from(line@, t as int, i as int) == here + fields_from(
                    line@,
                    i + 1,
                    i + 1,
                ));
                assert(done + (here + fields_from(line@, i + 1, i + 1)) =~= (done + here)
                    + fields_from(line@, i + 1, i + 1));
            }
            if t < i {
                out.push((t, i));
            }
            proof {
                done = done + here;
            }
            t = i + 1;
        }
        i = i + 1;
    }
    if t < n {
        out.push((t, n));
        proof {
            done = done.push(line@.subrange(t as int, n as int));
        }
    }
    assert(done =~= fields(line@));
    out
}

/// Relies on `std::str::from_utf8`: it accepts exactly the valid UTF-8 byte
/// sequences, and then reads the characters that they encode.
#[verifier::external_body]
pub fn as_text(bytes: &[u8]) -> (r: Option<&str>)
    ensures
        r is Some <==> valid_utf8(bytes@),
        r matches Some(s) ==> s@ == decode_utf8(bytes@),
{
    std::str::from_utf8(bytes).ok()
}

/// Whether two strings hold the same characters.
pub fn same_text(a: &str, b: &str) -> (r: bool)
    ensures
        r == (a@ == b@),
{
    let n = a.unicode_len();
    if n != b.unicode_len() {
        return false;
    }
    let mut i: usize = 0;
    while i < n
        invariant
            i <= n,
            n == a@.len(),
            n == b@.len(),
            forall|j: int| 0 <= j < i ==> a@[j] == b@[j],
        decreases n - i,
    {
        if a.get_char(i) != b.get_char(i) {
            return false;
        }
        i = i + 1;
    }
    assert(a@ =~= b@);
    true
}

} // verus!
