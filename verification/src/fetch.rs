//! Resumable-fetch decisions: what range request a partial file calls for,
//! and whether a completed transfer may be trusted. The streaming itself is
//! the driver's work; it reports byte counts back as plain values.

use vstd::prelude::*;
use vstd::string::StringExecFns;
use crate::error::InstallError;

verus! {

/// The decimal digit character for `d`.
pub open spec fn decimal_digit(d: int) -> char {
    (48 + d) as char
}

/// The decimal representation of `n`, most significant digit first, with no
/// leading zeros (except for `n == 0` itself).
pub open spec fn decimal_rep(n: int) -> Seq<char>
    decreases n,
{
    if n < 10 {
        seq![decimal_digit(n)]
    } else {
        decimal_rep(n / 10).push(decimal_digit(n % 10))
    }
}

fn push_digit(s: &mut String, d: u64)
    requires
        d < 10,
    ensures
        final(s)@ == old(s)@ + seq![decimal_digit(d as int)],
{
    proof {
        reveal_strlit("0");
        reveal_strlit("1");
        reveal_strlit("2");
        reveal_strlit("3");
        reveal_strlit("4");
        reveal_strlit("5");
        reveal_strlit("6");
        reveal_strlit("7");
        reveal_strlit("8");
        reveal_strlit("9");
    }
    match d {
        0 => s.append("0"),
        1 => s.append("1"),
        2 => s.append("2"),
        3 => s.append("3"),
        4 => s.append("4"),
        5 => s.append("5"),
        6 => s.append("6"),
        7 => s.append("7"),
        8 => s.append("8"),
        _ => s.append("9"),
    }
    proof {
        assert(final(s)@ =~= old(s)@ + seq![decimal_digit(d as int)]);
    }
}

fn push_decimal(s: &mut String, n: u64)
    ensures
        final(s)@ == old(s)@ + decimal_rep(n as int),
    decreases n,
{
    if n < 10 {
        push_digit(s, n);
    } else {
        proof {
            assert(n / 10 < n) by (nonlinear_arith)
                requires
                    n >= 10,
            ;
        }
        push_decimal(s, n / 10);
        push_digit(s, n % 10);
        proof {
            assert(old(s)@ + decimal_rep(n as int / 10) + seq![decimal_digit(n as int % 10)]
                =~= old(s)@ + decimal_rep(n as int));
        }
    }
}

/// Render `n` in decimal.
pub fn format_u64(n: u64) -> (r: String)
    ensures
        r@ == decimal_rep(n as int),
{
    let mut s = String::new();
    push_decimal(&mut s, n);
    proof {
        assert(s@ =~= decimal_rep(n as int));
    }
    s
}

/// The `Range` header value resuming a transfer after `offset` bytes: none
/// when nothing is on disk yet, `bytes=<offset>-` otherwise.
pub fn range_header(offset: u64) -> (r: Option<String>)
    ensures
        offset == 0 <==> r is None,
        r matches Some(h) ==> h@ == "bytes="@ + decimal_rep(offset as int) + "-"@,
{
    if offset == 0 {
        None
    } else {
        let mut s = String::from_str("bytes=");
        push_decimal(&mut s, offset);
        s.append("-");
        Some(s)
    }
}

/// Post-transfer size check: the on-disk byte count must equal the declared
/// asset size before the file is trusted; silent truncation or a server that
/// ignored the range request surfaces here.
pub fn verify_size(actual: u64, expected: u64) -> (r: Result<(), InstallError>)
    ensures
        actual == expected <==> r is Ok,
        r matches Err(e) ==> e == (InstallError::SizeMismatch { actual, expected }),
{
    if actual == expected {
        Ok(())
    } else {
        Err(InstallError::SizeMismatch { actual, expected })
    }
}

} // verus!
