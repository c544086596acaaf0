//! Parsing of human-readable duration expressions into seconds.
//!
//! A duration expression is a sequence of `<integer><unit>` tokens, where
//! the unit is one ASCII letter (`w`eeks, `d`ays, `h`ours, `m`inutes,
//! `s`econds, either case) or is missing on a final number followed only by
//! whitespace, which means seconds. Tokens may repeat and are summed, so
//! `"1h1h"` equals `"2h"`. Text that forms no token is skipped. The scanner
//! works on the UTF-8 bytes of the input; bytes outside ASCII never form a
//! token and are skipped like any other non-token text.

use vstd::prelude::*;
use vstd::string::StringSliceAdditionalSpecFns;
use crate::text::append_char;

verus! {

/// An ASCII decimal digit byte.
pub open spec fn is_digit(b: u8) -> bool {
    48 <= b && b <= 57
}

/// An ASCII letter byte, either case.
pub open spec fn is_letter(b: u8) -> bool {
    (97 <= b && b <= 122) || (65 <= b && b <= 90)
}

/// An ASCII whitespace byte: space, tab, line feed, vertical tab, form
/// feed or carriage return.
pub open spec fn is_space(b: u8) -> bool {
    b == 32 || b == 9 || b == 10 || b == 11 || b == 12 || b == 13
}

/// Lower-case an ASCII letter byte.
pub open spec fn lower(b: u8) -> u8 {
    if 65 <= b && b <= 90 {
        (b + 32) as u8
    } else {
        b
    }
}

/// Seconds per unit letter; zero marks an unknown unit. The letters are
/// `s`, `m`, `h`, `d` and `w`, either case.
pub open spec fn unit_factor(b: u8) -> int {
    if lower(b) == 115 {
        1
    } else if lower(b) == 109 {
        60
    } else if lower(b) == 104 {
        3600
    } else if lower(b) == 100 {
        86400
    } else if lower(b) == 119 {
        604800
    } else {
        0
    }
}

/// Numeric value of a run of decimal digit bytes, most significant first.
pub open spec fn digits_val(ds: Seq<u8>) -> int
    decreases ds.len(),
{
    if ds.len() == 0 {
        0
    } else {
        10 * digits_val(ds.drop_last()) + (ds.last() - 48)
    }
}

/// Length of the maximal digit prefix of `s`.
pub open spec fn run_end(s: Seq<u8>) -> int
    decreases s.len(),
{
    if s.len() == 0 || !is_digit(s[0]) {
        0
    } else {
        1 + run_end(s.skip(1))
    }
}

/// Whether every byte of `s` is whitespace.
pub open spec fn all_space(s: Seq<u8>) -> bool {
    forall|i: int| 0 <= i < s.len() ==> is_space(s[i])
}

pub proof fn lemma_run_end(s: Seq<u8>)
    ensures
        0 <= run_end(s) <= s.len(),
        forall|m: int| 0 <= m < run_end(s) ==> is_digit(s[m]),
        run_end(s) < s.len() ==> !is_digit(s[run_end(s)]),
        s.len() > 0 && is_digit(s[0]) ==> run_end(s) >= 1,
    decreases s.len(),
{
    if s.len() == 0 || !is_digit(s[0]) {
    } else {
        lemma_run_end(s.skip(1));
        assert forall|m: int| 0 <= m < run_end(s) implies is_digit(s[m]) by {
            if m > 0 {
                assert(is_digit(s.skip(1)[m - 1]));
            }
        }
        if run_end(s) < s.len() {
            assert(s.skip(1)[run_end(s) - 1] == s[run_end(s)]);
        }
    }
}

/// `run_end` is the unique cut characterized by "digits before, non-digit
/// (or end) at".
proof fn lemma_run_end_is(s: Seq<u8>, k: int)
    requires
        0 <= k <= s.len(),
        forall|m: int| 0 <= m < k ==> is_digit(s[m]),
        k < s.len() ==> !is_digit(s[k]),
    ensures
        run_end(s) == k,
    decreases s.len(),
{
    if k == 0 {
    } else {
        assert(is_digit(s[0]));
        lemma_run_end_is(s.skip(1), k - 1);
    }
}

/// On an all-digit sequence the value of a prefix never exceeds the value
/// of the whole, and values are non-negative.
proof fn lemma_digits_val_mono(s: Seq<u8>, m: int)
    requires
        0 <= m <= s.len(),
        forall|x: int| 0 <= x < s.len() ==> is_digit(s[x]),
    ensures
        digits_val(s) >= digits_val(s.take(m)) >= 0,
    decreases s.len(),
{
    if s.len() == 0 {
        assert(s.take(m) =~= s);
    } else if m == s.len() {
        assert(s.take(m) =~= s);
        lemma_digits_val_mono(s.drop_last(), s.len() - 1);
        assert(s.drop_last().take(s.len() - 1) =~= s.drop_last());
    } else {
        lemma_digits_val_mono(s.drop_last(), m);
        assert(s.drop_last().take(m) =~= s.take(m));
    }
}

/// Result of evaluating a duration expression: a total in seconds, or the
/// reason the expression is rejected.
pub enum DurationEval {
    /// The summed total, in seconds.
    Value(int),
    /// The expression holds no token at all.
    NoTokens,
    /// A number does not fit the unsigned range, either on its own or once
    /// multiplied by its unit and added to the running total.
    BadNumber,
    /// A token carries an unknown unit letter (stored lower-cased).
    BadUnit(u8),
}

/// Scan `s` from the front, summing tokens into `acc`; `any` records
/// whether a token was seen. Mirrors the scanner: a digit run followed by a
/// letter is a token with that unit; a digit run followed only by
/// whitespace up to the end is a final token in seconds; any other digit
/// run, and any non-digit byte, is skipped.
pub open spec fn eval_from(s: Seq<u8>, acc: int, any: bool) -> DurationEval
    decreases s.len(),
{
    if s.len() == 0 {
        if any {
            DurationEval::Value(acc)
        } else {
            DurationEval::NoTokens
        }
    } else if !is_digit(s[0]) {
        eval_from(s.skip(1), acc, any)
    } else {
        let j = run_end(s);
        let num = digits_val(s.take(j));
        if j < s.len() && is_letter(s[j]) {
            if num > usize::MAX as int {
                DurationEval::BadNumber
            } else if unit_factor(s[j]) == 0 {
                DurationEval::BadUnit(lower(s[j]))
            } else if acc + num * unit_factor(s[j]) > usize::MAX as int {
                DurationEval::BadNumber
            } else {
                proof {
                    lemma_run_end(s);
                }
                eval_from(s.skip(j + 1), acc + num * unit_factor(s[j]), true)
            }
        } else if all_space(s.skip(j)) {
            if num > usize::MAX as int || acc + num > usize::MAX as int {
                DurationEval::BadNumber
            } else {
                DurationEval::Value(acc + num)
            }
        } else {
            proof {
                lemma_run_end(s);
            }
            eval_from(s.skip(j), acc, any)
        }
    }
}

/// Evaluation of a whole duration expression, given as its UTF-8 bytes.
pub open spec fn spec_parse_duration(s: Seq<u8>) -> DurationEval {
    eval_from(s, 0, false)
}

/// Why a duration expression was rejected.
#[derive(Debug, PartialEq, Eq)]
pub enum ParseDurationError {
    /// The expression holds no duration token at all.
    Empty,
    /// A numeric value does not fit the unsigned integer range.
    InvalidValue,
    /// A token carries an unknown unit letter (reported lower-cased).
    UnknownIdentifier(String),
}

fn unit_factor_exec(b: u8) -> (r: usize)
    ensures
        r as int == unit_factor(b),
{
    let lb: u8 = if 65 <= b && b <= 90 {
        b + 32
    } else {
        b
    };
    if lb == 115 {
        1
    } else if lb == 109 {
        60
    } else if lb == 104 {
        3600
    } else if lb == 100 {
        86400
    } else if lb == 119 {
        604800
    } else {
        0
    }
}

/// Parse the digit run `bs[i..j]` as an unsigned integer; `None` means the
/// value does not fit.
fn parse_run(bs: &[u8], i: usize, j: usize) -> (r: Option<usize>)
    requires
        i <= j <= bs@.len(),
        forall|m: int| i <= m < j ==> is_digit(bs@[m]),
    ensures
        r matches Some(v) ==> v as int == digits_val(bs@.subrange(i as int, j as int)),
        r is None ==> digits_val(bs@.subrange(i as int, j as int)) > usize::MAX as int,
{
    let ghost whole = bs@.subrange(i as int, j as int);
    let mut v: usize = 0;
    let mut k: usize = i;
    while k < j
        invariant
            i <= k <= j <= bs@.len(),
            forall|m: int| i <= m < j ==> is_digit(bs@[m]),
            whole == bs@.subrange(i as int, j as int),
            v as int == digits_val(bs@.subrange(i as int, k as int)),
        decreases j - k,
    {
        let d: u8 = bs[k] - 48;
        proof {
            assert(bs@.subrange(i as int, k as int + 1).drop_last() =~= bs@.subrange(
                i as int,
                k as int,
            ));
            assert(bs@.subrange(i as int, k as int + 1).last() == bs@[k as int]);
        }
        let step = match v.checked_mul(10) {
            Some(m) => m.checked_add(d as usize),
            None => None,
        };
        match step {
            Some(nv) => {
                v = nv;
            },
            None => {
                proof {
                    assert(digits_val(bs@.subrange(i as int, k as int + 1)) > usize::MAX as int);
                    assert(whole.take(k + 1 - i) =~= bs@.subrange(i as int, k as int + 1));
                    assert forall|x: int| 0 <= x < whole.len() implies is_digit(whole[x]) by {
                        assert(whole[x] == bs@[i + x]);
                    }
                    lemma_digits_val_mono(whole, k + 1 - i);
                }
                return None;
            },
        }
        k = k + 1;
    }
    proof {
        assert(bs@.subrange(i as int, k as int) =~= whole);
    }
    Some(v)
}

/// Parse a human-readable duration expression into a count of seconds.
///
/// The total is the sum over all tokens of the token's number times its
/// unit's seconds; unknown units and numbers out of the unsigned range are
/// rejected, and an expression with no token at all is rejected as empty.
/// The exact outcome, including which error is reported first, is
/// `spec_parse_duration` on the expression's bytes.
pub fn parse_duration(duration: &str) -> (r: Result<usize, ParseDurationError>)
    ensures
        (spec_parse_duration(duration.spec_bytes()) matches DurationEval::Value(v) ==> r
            matches Ok(n) && n as int == v),
        r is Ok ==> spec_parse_duration(duration.spec_bytes()) is Value,
        spec_parse_duration(duration.spec_bytes()) is NoTokens <==> r matches Err(
            ParseDurationError::Empty,
        ),
        spec_parse_duration(duration.spec_bytes()) is BadNumber <==> r matches Err(
            ParseDurationError::InvalidValue,
        ),
        (spec_parse_duration(duration.spec_bytes()) matches DurationEval::BadUnit(c) ==> r
            matches Err(ParseDurationError::UnknownIdentifier(u)) && u@ == seq![c as char]),
        r matches Err(ParseDurationError::UnknownIdentifier(u)) ==> spec_parse_duration(
            duration.spec_bytes(),
        ) is BadUnit,
{
    let bs = duration.as_bytes();
    let n = bs.len();
    let mut i: usize = 0;
    let mut acc: usize = 0;
    let mut any: bool = false;
    proof {
        assert(bs@.skip(0) =~= bs@);
    }
    while i < n
        invariant
            n == bs@.len(),
            bs@ == duration.spec_bytes(),
            i <= n,
            eval_from(bs@.skip(i as int), acc as int, any) == spec_parse_duration(bs@),
        decreases n - i,
    {
        if !(48 <= bs[i] && bs[i] <= 57) {
            proof {
                assert(bs@.skip(i as int)[0] == bs@[i as int]);
                assert(bs@.skip(i as int).skip(1) =~= bs@.skip(i as int + 1));
            }
            i = i + 1;
            continue ;
        }
        // A digit run starts at i; find its end.
        let ghost s_i = bs@.skip(i as int);
        let mut j: usize = i;
        while j < n && 48 <= bs[j] && bs[j] <= 57
            invariant
                n == bs@.len(),
                i <= j <= n,
                forall|m: int| i <= m < j ==> is_digit(bs@[m]),
            decreases n - j,
        {
            j = j + 1;
        }
        proof {
            assert forall|m: int| 0 <= m < j - i implies is_digit(s_i[m]) by {
                assert(s_i[m] == bs@[i + m]);
            }
            if j < n {
                assert(s_i[j - i] == bs@[j as int]);
            }
            lemma_run_end_is(s_i, j - i);
            lemma_run_end(s_i);
            assert(s_i[0] == bs@[i as int]);
            assert(j > i);
            if j < n {
                assert(s_i[j - i] == bs@[j as int]);
            }
            assert(s_i.take(j - i) =~= bs@.subrange(i as int, j as int));
        }
        if j < n && ((97 <= bs[j] && bs[j] <= 122) || (65 <= bs[j] && bs[j] <= 90)) {
            // A token with a unit letter.
            let num = match parse_run(bs, i, j) {
                Some(v) => v,
                None => {
                    return Err(ParseDurationError::InvalidValue);
                },
            };
            let f = unit_factor_exec(bs[j]);
            if f == 0 {
                let lb: u8 = if 65 <= bs[j] && bs[j] <= 90 {
                    bs[j] + 32
                } else {
                    bs[j]
                };
                let mut u = String::new();
                append_char(&mut u, lb as char);
                proof {
                    assert(u@ =~= seq![lower(bs@[j as int]) as char]);
                }
                return Err(ParseDurationError::UnknownIdentifier(u));
            }
            let term = match num.checked_mul(f) {
                Some(t) => t.checked_add(acc),
                None => None,
            };
            match term {
                Some(total) => {
                    proof {
                        assert(s_i.skip(j - i + 1) =~= bs@.skip(j as int + 1));
                    }
                    acc = total;
                    any = true;
                    i = j + 1;
                },
                None => {
                    return Err(ParseDurationError::InvalidValue);
                },
            }
        } else {
            // No unit letter: the run is a final token only if nothing but
            // whitespace follows it.
            let mut k: usize = j;
            while k < n && (bs[k] == 32 || bs[k] == 9 || bs[k] == 10 || bs[k] == 11 || bs[k] == 12
                || bs[k] == 13)
                invariant
                    n == bs@.len(),
                    j <= k <= n,
                    forall|m: int| j <= m < k ==> is_space(bs@[m]),
                decreases n - k,
            {
                k = k + 1;
            }
            if k == n {
                proof {
                    assert forall|m: int| 0 <= m < s_i.skip(j - i).len() implies is_space(
                        #[trigger] s_i.skip(j - i)[m],
                    ) by {
                        assert(s_i.skip(j - i)[m] == bs@[j + m]);
                    }
                    assert(all_space(s_i.skip(j - i)));
                }
                let num = match parse_run(bs, i, j) {
                    Some(v) => v,
                    None => {
                        return Err(ParseDurationError::InvalidValue);
                    },
                };
                match acc.checked_add(num) {
                    Some(total) => {
                        return Ok(total);
                    },
                    None => {
                        return Err(ParseDurationError::InvalidValue);
                    },
                }
            } else {
                proof {
                    assert(s_i.skip(j - i)[k - j] == bs@[k as int]);
                    assert(!all_space(s_i.skip(j - i)));
                    assert(s_i.skip(j - i) =~= bs@.skip(j as int));
                }
                i = j;
            }
        }
    }
    if any {
        Ok(acc)
    } else {
        Err(ParseDurationError::Empty)
    }
}

} // verus!
