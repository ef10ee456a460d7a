//! Parsing interactive input lines as signed 32-bit integers.
//!
//! A line read from the input sink may carry its trailing newline (or a
//! carriage return and newline); that terminator is stripped before
//! parsing. The remainder must be an optional `+` or `-` sign followed by
//! at least one decimal digit, and the value must fit in an `i32`;
//! anything else fails, and the evaluator turns that failure into an
//! interpretation error.

use vstd::prelude::*;

use crate::lexer::{digit_val, is_digit};

verus! {

/// The line without its trailing `"\r\n"` or `"\n"`, if it has one.
pub open spec fn strip_line_end(s: Seq<char>) -> Seq<char> {
    if s.len() >= 2 && s[s.len() - 2] == '\r' && s[s.len() - 1] == '\n' {
        s.take(s.len() - 2)
    } else if s.len() >= 1 && s[s.len() - 1] == '\n' {
        s.take(s.len() - 1)
    } else {
        s
    }
}

/// Every character is a decimal digit.
pub open spec fn all_digits(s: Seq<char>) -> bool {
    forall|i: int| 0 <= i < s.len() ==> is_digit(#[trigger] s[i])
}

/// The value of a digit run, read in base ten.
pub open spec fn digits_val(s: Seq<char>) -> int
    decreases s.len(),
{
    if s.len() == 0 {
        0
    } else {
        10 * digits_val(s.drop_last()) + digit_val(s.last())
    }
}

/// A digit run's value never goes down as more digits are appended.
proof fn lemma_digits_val_monotone(s: Seq<char>, i: int)
    requires
        0 <= i <= s.len(),
        all_digits(s),
    ensures
        0 <= digits_val(s.take(i)) <= digits_val(s),
    decreases s.len() - i,
{
    if i == s.len() {
        assert(s.take(i) =~= s);
        lemma_digits_val_nonneg(s);
    } else {
        lemma_digits_val_monotone(s, i + 1);
        assert(s.take(i + 1).drop_last() =~= s.take(i));
        assert(s.take(i + 1).last() == s[i]);
        lemma_digits_val_nonneg(s.take(i));
    }
}

proof fn lemma_digits_val_nonneg(s: Seq<char>)
    ensures
        digits_val(s) >= 0,
    decreases s.len(),
{
    if s.len() > 0 {
        lemma_digits_val_nonneg(s.drop_last());
    }
}

/// The integer denoted by an input line: its terminator is stripped, an
/// optional sign is honoured, and the digits are read in base ten. `None`
/// if no digits follow the sign, if any other character appears, or if the
/// value does not fit in an `i32`.
pub open spec fn spec_parse_i32(s: Seq<char>) -> Option<i32> {
    let body = strip_line_end(s);
    let neg = body.len() > 0 && body[0] == '-';
    let signed = body.len() > 0 && (body[0] == '-' || body[0] == '+');
    let digs = if signed {
        body.skip(1)
    } else {
        body
    };
    if digs.len() == 0 || !all_digits(digs) {
        None
    } else {
        let v = digits_val(digs);
        if neg && v <= 0x8000_0000 {
            Some((-v) as i32)
        } else if !neg && v <= 0x7fff_ffff {
            Some(v as i32)
        } else {
            None
        }
    }
}

/// Parse a line as a signed 32-bit integer, exactly as [`spec_parse_i32`]
/// describes.
pub fn parse_i32(line: &str) -> (r: Option<i32>)
    ensures
        r == spec_parse_i32(line@),
{
    let n = line.unicode_len();
    let end: usize = if n >= 2 && line.get_char(n - 2) == '\r' && line.get_char(n - 1) == '\n' {
        n - 2
    } else if n >= 1 && line.get_char(n - 1) == '\n' {
        n - 1
    } else {
        n
    };
    proof {
        assert(strip_line_end(line@) =~= line@.take(end as int));
    }
    let ghost body = line@.take(end as int);
    let mut start: usize = 0;
    let mut neg = false;
    if end > 0 {
        let c0 = line.get_char(0);
        if c0 == '-' {
            neg = true;
            start = 1;
        } else if c0 == '+' {
            start = 1;
        }
    }
    let ghost digs = if start == 1 {
        body.skip(1)
    } else {
        body
    };
    proof {
        assert(digs.len() == end - start);
        assert(forall|j: int| 0 <= j < digs.len() ==> digs[j] == line@[j + start]);
    }
    if start == end {
        // no digits at all
        return None;
    }
    let mut acc: u64 = 0;
    let mut i: usize = start;
    while i < end
        invariant
            start <= i <= end,
            end <= n,
            n == line@.len(),
            body == line@.take(end as int),
            body == strip_line_end(line@),
            digs == (if start == 1 {
                body.skip(1)
            } else {
                body
            }),
            start == 0 || start == 1,
            (start == 1) == (body.len() > 0 && (body[0] == '-' || body[0] == '+')),
            start < end,
            digs.len() == end - start,
            forall|j: int| 0 <= j < digs.len() ==> digs[j] == line@[j + start],
            all_digits(digs.take(i - start)),
            acc == digits_val(digs.take(i - start)),
            acc <= 0x8000_0000,
        decreases end - i,
    {
        let c = line.get_char(i);
        let u = c as u32;
        if !(48 <= u && u <= 57) {
            proof {
                assert(digs[i - start] == c);
                assert(!is_digit(c));
            }
            return None;
        }
        proof {
            assert(digs.take(i - start + 1).drop_last() =~= digs.take(i - start));
            assert(digs.take(i - start + 1).last() == digs[i - start]);
            assert(digs[i - start] == c);
        }
        acc = acc * 10 + ((u - 48) as u64);
        i = i + 1;
        if acc > 0x8000_0000 {
            proof {
                assert(digs.take(digs.len() as int) =~= digs);
                if all_digits(digs) {
                    lemma_digits_val_monotone(digs, i - start);
                    assert(digits_val(digs) > 0x8000_0000);
                }
            }
            return None;
        }
    }
    proof {
        assert(digs.take(i - start) =~= digs);
    }
    if neg {
        if acc == 0x8000_0000 {
            Some(i32::MIN)
        } else {
            Some(-(acc as i32))
        }
    } else {
        if acc <= 0x7fff_ffff {
            Some(acc as i32)
        } else {
            None
        }
    }
}

} // verus!
