//! Reading the command-line tokens into a run configuration.
//!
//! The first token is the program name and is skipped; the second is
//! the duration in seconds, a string of decimal digits; every further
//! token is one task label, kept in the order given. Task labels are
//! optional, the duration is not.

use vstd::arithmetic::div_mod::{lemma_fundamental_div_mod, lemma_mod_bound};
use vstd::prelude::*;

verus! {

/// Why the command line was rejected: the duration token was absent,
/// or it was not a decimal number that fits the duration field.
#[derive(Clone, Copy, Debug, PartialEq, Eq, Structural)]
pub enum ArgumentError {
    MissingDuration,
    InvalidDuration,
}

/// What one run works from: the duration in seconds and the task
/// labels, in the order they were given. Built once from the command
/// line and never changed.
#[derive(Debug)]
pub struct RunConfiguration {
    pub duration: u64,
    pub tasks: Vec<String>,
}

/// Whether `c` is one of the ten decimal digits.
pub open spec fn is_decimal_digit(c: char) -> bool {
    ||| c == '0'
    ||| c == '1'
    ||| c == '2'
    ||| c == '3'
    ||| c == '4'
    ||| c == '5'
    ||| c == '6'
    ||| c == '7'
    ||| c == '8'
    ||| c == '9'
}

/// The numeric value of a decimal digit; any other character counts
/// as zero.
pub open spec fn digit_value(c: char) -> int {
    if c == '1' {
        1
    } else if c == '2' {
        2
    } else if c == '3' {
        3
    } else if c == '4' {
        4
    } else if c == '5' {
        5
    } else if c == '6' {
        6
    } else if c == '7' {
        7
    } else if c == '8' {
        8
    } else if c == '9' {
        9
    } else {
        0
    }
}

/// Whether every character of `s` is a decimal digit.
pub open spec fn all_digits(s: Seq<char>) -> bool {
    forall|i: int| 0 <= i < s.len() ==> is_decimal_digit(s[i])
}

/// The number that `s` denotes when read as decimal digits,
/// most significant first.
pub open spec fn decimal_value(s: Seq<char>) -> int
    decreases s.len(),
{
    if s.len() == 0 {
        0
    } else {
        decimal_value(s.drop_last()) * 10 + digit_value(s.last())
    }
}

/// Whether `s` is an acceptable duration token: at least one
/// character, all of them decimal digits, denoting a number that fits
/// in the duration field.
pub open spec fn is_duration_token(s: Seq<char>) -> bool {
    &&& s.len() > 0
    &&& all_digits(s)
    &&& decimal_value(s) <= u64::MAX
}

/// A string of digits never denotes a negative number.
proof fn lemma_decimal_value_nonneg(s: Seq<char>)
    ensures
        decimal_value(s) >= 0,
    decreases s.len(),
{
    if s.len() > 0 {
        lemma_decimal_value_nonneg(s.drop_last());
    }
}

/// Reading more digits never shrinks the number: the value of a
/// prefix is at most the value of any longer prefix.
proof fn lemma_decimal_prefix_le(s: Seq<char>, i: int, j: int)
    requires
        0 <= i <= j <= s.len(),
    ensures
        decimal_value(s.subrange(0, i)) <= decimal_value(s.subrange(0, j)),
    decreases j - i,
{
    if i < j {
        lemma_decimal_prefix_le(s, i, j - 1);
        let longer = s.subrange(0, j);
        assert(longer.drop_last() =~= s.subrange(0, j - 1));
        lemma_decimal_value_nonneg(s.subrange(0, j - 1));
    }
}

/// The digit `c` stands for, or `None` when `c` is no decimal digit.
fn digit_of(c: char) -> (r: Option<u8>)
    ensures
        r is Some <==> is_decimal_digit(c),
        r is Some ==> r->Some_0 == digit_value(c),
{
    match c {
        '0' => Some(0),
        '1' => Some(1),
        '2' => Some(2),
        '3' => Some(3),
        '4' => Some(4),
        '5' => Some(5),
        '6' => Some(6),
        '7' => Some(7),
        '8' => Some(8),
        '9' => Some(9),
        _ => None,
    }
}

/// Parses the duration token: succeeds exactly on non-empty strings
/// of decimal digits whose value fits in the duration field, and then
/// returns that value.
pub fn parse_duration(s: &str) -> (r: Result<u64, ArgumentError>)
    ensures
        r is Ok <==> is_duration_token(s@),
        r is Ok ==> r->Ok_0 == decimal_value(s@),
        r is Err ==> r->Err_0 == ArgumentError::InvalidDuration,
{
    let n: usize = s.unicode_len();
    if n == 0 {
        return Err(ArgumentError::InvalidDuration);
    }
    let mut value: u64 = 0;
    let mut i: usize = 0;
    while i < n
        invariant
            n == s@.len(),
            i <= n,
            all_digits(s@.subrange(0, i as int)),
            value == decimal_value(s@.subrange(0, i as int)),
        decreases n - i,
    {
        let c = s.get_char(i);
        match digit_of(c) {
            None => {
                assert(!is_decimal_digit(s@[i as int]));
                return Err(ArgumentError::InvalidDuration);
            },
            Some(d) => {
                let headroom: u64 = (u64::MAX - d as u64) / 10;
                proof {
                    let prefix = s@.subrange(0, i as int);
                    let extended = s@.subrange(0, i as int + 1);
                    assert(extended.drop_last() =~= prefix);
                    assert(extended.last() == s@[i as int]);
                    let rest: int = u64::MAX - d;
                    lemma_fundamental_div_mod(rest, 10);
                    lemma_mod_bound(rest, 10);
                }
                if value > headroom {
                    proof {
                        lemma_decimal_prefix_le(s@, i as int + 1, n as int);
                        assert(s@.subrange(0, n as int) =~= s@);
                    }
                    return Err(ArgumentError::InvalidDuration);
                }
                value = value * 10 + d as u64;
                i = i + 1;
            },
        }
    }
    proof {
        assert(s@.subrange(0, n as int) =~= s@);
    }
    Ok(value)
}

/// Reads the whole token list, program name first, into a
/// configuration: token 1 is the duration, tokens 2.. are the task
/// labels in order. Fails with `MissingDuration` when no duration
/// token is there, and with `InvalidDuration` when it does not parse.
pub fn parse_arguments(tokens: &Vec<String>) -> (r: Result<RunConfiguration, ArgumentError>)
    ensures
        r is Ok <==> tokens@.len() >= 2 && is_duration_token(tokens@[1]@),
        r is Ok ==> {
            let cfg = r->Ok_0;
            &&& cfg.duration == decimal_value(tokens@[1]@)
            &&& cfg.tasks@.len() == tokens@.len() - 2
            &&& forall|k: int| 0 <= k < cfg.tasks@.len() ==> cfg.tasks@[k] == tokens@[k + 2]
        },
        r is Err ==> r->Err_0 == (if tokens@.len() < 2 {
            ArgumentError::MissingDuration
        } else {
            ArgumentError::InvalidDuration
        }),
{
    if tokens.len() < 2 {
        return Err(ArgumentError::MissingDuration);
    }
    let duration: u64 = match parse_duration(tokens[1].as_str()) {
        Ok(d) => d,
        Err(e) => {
            return Err(e);
        },
    };
    let mut tasks: Vec<String> = Vec::new();
    let mut i: usize = 2;
    while i < tokens.len()
        invariant
            2 <= i <= tokens@.len(),
            tasks@.len() == i - 2,
            forall|k: int| 0 <= k < tasks@.len() ==> tasks@[k] == tokens@[k + 2],
        decreases tokens@.len() - i,
    {
        tasks.push(tokens[i].clone());
        i = i + 1;
    }
    Ok(RunConfiguration { duration, tasks })
}

} // verus!
