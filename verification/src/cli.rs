//! Port selection: the one computation behind the command line.
//!
//! The surrounding program finds the value following its port flag and hands
//! the raw text here; an invalid or out-of-range value falls back to the
//! default with a warning, never a hard failure.

use vstd::prelude::*;

verus! {

/// The port used when none is given or the given one is invalid.
pub const DEFAULT_PORT: usize = 8080;

/// The lowest acceptable port.
pub const MIN_PORT: usize = 1024;

/// The highest acceptable port.
pub const MAX_PORT: usize = 65535;

/// Whether a character is a decimal digit.
pub open spec fn is_digit(c: char) -> bool {
    c == '0' || c == '1' || c == '2' || c == '3' || c == '4' || c == '5' || c == '6' || c == '7'
        || c == '8' || c == '9'
}

/// The value of one decimal digit.
pub open spec fn digit_val(c: char) -> int {
    if c == '0' {
        0
    } else if c == '1' {
        1
    } else if c == '2' {
        2
    } else if c == '3' {
        3
    } else if c == '4' {
        4
    } else if c == '5' {
        5
    } else if c == '6' {
        6
    } else if c == '7' {
        7
    } else if c == '8' {
        8
    } else {
        9
    }
}

/// Whether a text is one or more decimal digits and nothing else.
pub open spec fn all_digits(s: Seq<char>) -> bool {
    forall|i: int| 0 <= i < s.len() ==> is_digit(#[trigger] s[i])
}

/// The number a digit text denotes.
pub open spec fn dec_val(s: Seq<char>) -> int
    decreases s.len(),
{
    if s.len() == 0 {
        0
    } else {
        dec_val(s.drop_last()) * 10 + digit_val(s.last())
    }
}

/// The port a command-line value denotes: a non-empty run of digits whose
/// value lies in `MIN_PORT..=MAX_PORT`, and nothing else.
pub open spec fn parsed_port(s: Seq<char>) -> Option<int> {
    if s.len() > 0 && all_digits(s) && MIN_PORT <= dec_val(s) <= MAX_PORT {
        Some(dec_val(s))
    } else {
        None
    }
}

/// Reads a decimal port number: `Some` exactly when the whole text is digits
/// and the value lies in the valid range.
pub fn parse_port(s: &str) -> (r: Option<usize>)
    ensures
        match r {
            Option::Some(p) => parsed_port(s@) == Some(p as int),
            Option::None => parsed_port(s@) is None,
        },
{
    let n = s.unicode_len();
    if n == 0 {
        return None;
    }
    let mut i: usize = 0;
    let mut acc: u32 = 0;
    while i < n
        invariant
            i <= n,
            n == s@.len(),
            forall|k: int| 0 <= k < i ==> is_digit(#[trigger] s@[k]),
            dec_val(s@.take(i as int)) >= 0,
            dec_val(s@.take(i as int)) <= MAX_PORT ==> acc == dec_val(s@.take(i as int)),
            dec_val(s@.take(i as int)) > MAX_PORT ==> acc == 70000,
            acc <= 70000,
        decreases n - i,
    {
        let c = s.get_char(i);
        let d: u32;
        if c == '0' {
            d = 0;
        } else if c == '1' {
            d = 1;
        } else if c == '2' {
            d = 2;
        } else if c == '3' {
            d = 3;
        } else if c == '4' {
            d = 4;
        } else if c == '5' {
            d = 5;
        } else if c == '6' {
            d = 6;
        } else if c == '7' {
            d = 7;
        } else if c == '8' {
            d = 8;
        } else if c == '9' {
            d = 9;
        } else {
            proof {
                assert(!is_digit(s@[i as int]));
                assert(!all_digits(s@));
            }
            return None;
        }
        i = i + 1;
        acc = acc * 10 + d;
        if acc > 65535 {
            acc = 70000;
        }
        proof {
            assert(s@.take(i as int).drop_last() =~= s@.take(i - 1));
            assert(s@.take(i as int).last() == s@[i - 1]);
            assert(dec_val(s@.take(i as int)) == dec_val(s@.take(i - 1)) * 10 + digit_val(
                s@[i - 1],
            ));
        }
    }
    proof {
        assert(s@.take(n as int) =~= s@);
    }
    if acc >= 1024 && acc <= 65535 {
        Some(acc as usize)
    } else {
        None
    }
}

/// The port the program runs with: the given value if it parses and lies in
/// range, the default otherwise (also when no value was given at all).
pub fn port_or_default(arg: Option<&str>) -> (p: usize)
    ensures
        match arg {
            Option::Some(s) => match parsed_port(s@) {
                Option::Some(v) => p as int == v,
                Option::None => p == DEFAULT_PORT,
            },
            Option::None => p == DEFAULT_PORT,
        },
{
    match arg {
        Option::Some(s) => match parse_port(s) {
            Option::Some(v) => v,
            Option::None => DEFAULT_PORT,
        },
        Option::None => DEFAULT_PORT,
    }
}

} // verus!
