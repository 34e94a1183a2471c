use vstd::prelude::*;
use crate::status::ExitCode;

verus! {

pub open spec fn is_digit(c: char) -> bool {
    '0' <= c && c <= '9'
}

pub open spec fn digit_value(c: char) -> nat {
    ((c as int) - ('0' as int)) as nat
}

pub open spec fn all_digits(s: Seq<char>) -> bool {
    forall|i: int| 0 <= i < s.len() ==> #[trigger] is_digit(s[i])
}

/// The number that a string of decimal digits writes.
pub open spec fn decimal_value(s: Seq<char>) -> nat
    decreases s.len(),
{
    if s.len() == 0 {
        0
    } else {
        decimal_value(s.drop_last()) * 10 + digit_value(s.last())
    }
}

/// The factor that a size suffix stands for, in either case.
pub open spec fn suffix_factor(c: char) -> Option<nat> {
    if c == 'k' || c == 'K' {
        Some(0x400nat)
    } else if c == 'm' || c == 'M' {
        Some(0x10_0000nat)
    } else if c == 'g' || c == 'G' {
        Some(0x4000_0000nat)
    } else if c == 't' || c == 'T' {
        Some(0x100_0000_0000nat)
    } else {
        None
    }
}

/// The number of bytes that a size string writes: decimal digits, then at
/// most one suffix. `None` where the string has another form.
pub open spec fn size_value(s: Seq<char>) -> Option<nat> {
    let has_suffix = s.len() > 0 && suffix_factor(s.last()) is Some;
    let body = if has_suffix { s.drop_last() } else { s };
    let factor: nat = if has_suffix { suffix_factor(s.last())->0 } else { 1 };
    if body.len() > 0 && all_digits(body) {
        Some(decimal_value(body) * factor)
    } else {
        None
    }
}

/// A size string read as bytes: a positive number of bytes that fits in 64
/// bits, and `BadSyntax` for everything else (zero, a sign, other text).
pub open spec fn spec_parse_size(s: Seq<char>) -> Result<u64, ExitCode> {
    match size_value(s) {
        Some(v) => if 0 < v && v <= u64::MAX {
            Ok(v as u64)
        } else {
            Err(ExitCode::BadSyntax)
        },
        None => Err(ExitCode::BadSyntax),
    }
}

/// A unit number: decimal digits whose value is at most 65535.
pub open spec fn spec_parse_unit(s: Seq<char>) -> Result<u16, ExitCode> {
    if s.len() > 0 && all_digits(s) && decimal_value(s) <= u16::MAX {
        Ok(decimal_value(s) as u16)
    } else {
        Err(ExitCode::BadSyntax)
    }
}

proof fn lemma_prefix_value_le(s: Seq<char>, i: int)
    requires
        0 <= i <= s.len(),
    ensures
        decimal_value(s.subrange(0, i)) <= decimal_value(s),
    decreases s.len(),
{
    if i == s.len() {
        assert(s.subrange(0, i) =~= s);
    } else {
        assert(s.drop_last().subrange(0, i) =~= s.subrange(0, i));
        lemma_prefix_value_le(s.drop_last(), i);
    }
}

/// Reads the first `end` characters of `s` as a decimal number; `None` where
/// one of them is no digit or the value does not fit in 64 bits.
fn decimal_prefix(s: &str, end: usize) -> (r: Option<u64>)
    requires
        end <= s@.len(),
    ensures
        match r {
            Some(v) => all_digits(s@.subrange(0, end as int)) && v == decimal_value(
                s@.subrange(0, end as int),
            ),
            None => !all_digits(s@.subrange(0, end as int)) || decimal_value(
                s@.subrange(0, end as int),
            ) > u64::MAX,
        },
{
    let ghost body = s@.subrange(0, end as int);
    let mut acc: u64 = 0;
    let mut i: usize = 0;
    while i < end
        invariant
            i <= end,
            end <= s@.len(),
            body == s@.subrange(0, end as int),
            all_digits(s@.subrange(0, i as int)),
            acc == decimal_value(s@.subrange(0, i as int)),
        decreases end - i,
    {
        let c = s.get_char(i);
        let ghost next = s@.subrange(0, i as int + 1);
        assert(next.drop_last() =~= s@.subrange(0, i as int));
        assert(next.last() == c);
        assert(body[i as int] == c);
        if !('0' <= c && c <= '9') {
            assert(!is_digit(body[i as int]));
            return None;
        }
        let d: u64 = (c as u32 - '0' as u32) as u64;
        assert(d == digit_value(c));
        if acc > (u64::MAX - d) / 10 {
            proof {
                assert(acc * 10 + d > u64::MAX) by (nonlinear_arith)
                    requires
                        acc > (u64::MAX - d) / 10,
                        d <= 9,
                ;
                assert(body.subrange(0, i as int + 1) =~= next);
                lemma_prefix_value_le(body, i as int + 1);
            }
            return None;
        }
        acc = acc * 10 + d;
        i = i + 1;
        assert(all_digits(s@.subrange(0, i as int))) by {
            assert forall|j: int| 0 <= j < i implies #[trigger] is_digit(
                s@.subrange(0, i as int)[j],
            ) by {
                if j < i - 1 {
                    assert(s@.subrange(0, i as int)[j] == s@.subrange(0, i - 1)[j]);
                }
            }
        }
    }
    assert(s@.subrange(0, i as int) =~= body);
    Some(acc)
}

fn suffix_factor_of(c: char) -> (r: u64)
    ensures
        match suffix_factor(c) {
            Some(f) => r == f,
            None => r == 0,
        },
{
    if c == 'k' || c == 'K' {
        0x400
    } else if c == 'm' || c == 'M' {
        0x10_0000
    } else if c == 'g' || c == 'G' {
        0x4000_0000
    } else if c == 't' || c == 'T' {
        0x100_0000_0000
    } else {
        0
    }
}

/// Reads a size such as `512`, `10K`, `1m` or `2G` as a number of bytes.
pub fn parse_size(s: &str) -> (r: Result<u64, ExitCode>)
    ensures
        r == spec_parse_size(s@),
{
    let n = s.unicode_len();
    if n == 0 {
        return Err(ExitCode::BadSyntax);
    }
    let last = s.get_char(n - 1);
    let suffix = suffix_factor_of(last);
    let end: usize = if suffix == 0 { n } else { n - 1 };
    let factor: u64 = if suffix == 0 { 1 } else { suffix };
    let ghost body = s@.subrange(0, end as int);
    proof {
        assert(s@.last() == last);
        if suffix == 0 {
            assert(body =~= s@);
        } else {
            assert(body =~= s@.drop_last());
        }
        assert(size_value(s@) == if body.len() > 0 && all_digits(body) {
            Some((decimal_value(body) * factor) as nat)
        } else {
            None::<nat>
        });
    }
    if end == 0 {
        return Err(ExitCode::BadSyntax);
    }
    match decimal_prefix(s, end) {
        None => {
            proof {
                if all_digits(body) {
                    let v = decimal_value(body);
                    assert(v * factor > u64::MAX) by (nonlinear_arith)
                        requires
                            v > u64::MAX,
                            factor >= 1,
                    ;
                }
            }
            assert(spec_parse_size(s@) is Err);
            Err(ExitCode::BadSyntax)
        },
        Some(v) => {
            if v == 0 {
                assert(v * factor == 0) by (nonlinear_arith)
                    requires
                        v == 0,
                ;
                Err(ExitCode::BadSyntax)
            } else if v > u64::MAX / factor {
                assert(v * factor > u64::MAX) by (nonlinear_arith)
                    requires
                        v > u64::MAX / factor,
                        factor >= 1,
                ;
                Err(ExitCode::BadSyntax)
            } else {
                assert(v * factor <= u64::MAX) by (nonlinear_arith)
                    requires
                        v <= u64::MAX / factor,
                        factor >= 1,
                ;
                assert(v * factor > 0) by (nonlinear_arith)
                    requires
                        v > 0,
                        factor >= 1,
                ;
                Ok(v * factor)
            }
        },
    }
}

/// Reads a device unit number, 0 to 65535.
pub fn parse_unit(s: &str) -> (r: Result<u16, ExitCode>)
    ensures
        r == spec_parse_unit(s@),
{
    let n = s.unicode_len();
    if n == 0 {
        return Err(ExitCode::BadSyntax);
    }
    assert(s@.subrange(0, n as int) =~= s@);
    match decimal_prefix(s, n) {
        Some(v) => if v <= 0xffff {
            Ok(v as u16)
        } else {
            Err(ExitCode::BadSyntax)
        },
        None => Err(ExitCode::BadSyntax),
    }
}

} // verus!
