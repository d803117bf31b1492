//! Resolving the MIDI input port at startup: automatic when exactly one
//! port exists, otherwise from a numeric console selection, with an
//! explicit error for an empty port list and for an out-of-range or
//! non-numeric choice.

use vstd::prelude::*;
use crate::errors::StartupError;

verus! {

/// How startup will choose the input port for a given number of ports.
#[derive(Clone, Copy, Debug, PartialEq, Eq, Structural)]
pub enum PortPlan {
    /// Exactly one port exists; take it without asking.
    UseOnlyPort,
    /// Several ports exist; the user must pick one by number.
    PromptForPort,
}

/// Decide how the input port is resolved: no port is a configuration
/// error, a single port is taken automatically, and several ports ask
/// for a selection.
pub fn resolve_port_count(port_count: usize) -> (r: Result<PortPlan, StartupError>)
    ensures
        match r {
            Ok(p) => (port_count == 1 && p == PortPlan::UseOnlyPort) || (port_count >= 2
                && p == PortPlan::PromptForPort),
            Err(e) => port_count == 0 && e == StartupError::NoInputPort,
        },
{
    if port_count == 0 {
        Err(StartupError::NoInputPort)
    } else if port_count == 1 {
        Ok(PortPlan::UseOnlyPort)
    } else {
        Ok(PortPlan::PromptForPort)
    }
}

/// ASCII whitespace as a console line may carry it: space, tab, line
/// feed, carriage return.
pub open spec fn is_ascii_whitespace(b: u8) -> bool {
    b == 32 || b == 9 || b == 10 || b == 13
}

/// An ASCII decimal digit.
pub open spec fn is_ascii_digit(b: u8) -> bool {
    48 <= b && b <= 57
}

/// The sequence with its leading ASCII whitespace removed.
pub open spec fn trim_front(s: Seq<u8>) -> Seq<u8>
    decreases s.len(),
{
    if s.len() > 0 && is_ascii_whitespace(s[0]) {
        trim_front(s.drop_first())
    } else {
        s
    }
}

/// The sequence with its trailing ASCII whitespace removed.
pub open spec fn trim_back(s: Seq<u8>) -> Seq<u8>
    decreases s.len(),
{
    if s.len() > 0 && is_ascii_whitespace(s.last()) {
        trim_back(s.drop_last())
    } else {
        s
    }
}

/// The line with leading and trailing ASCII whitespace removed.
pub open spec fn spec_trim(s: Seq<u8>) -> Seq<u8> {
    trim_back(trim_front(s))
}

/// Every byte is a decimal digit.
pub open spec fn all_digits(s: Seq<u8>) -> bool {
    forall|i: int| 0 <= i < s.len() ==> is_ascii_digit(s[i])
}

/// A non-empty run of decimal digits.
pub open spec fn is_numeric(s: Seq<u8>) -> bool {
    s.len() > 0 && all_digits(s)
}

/// The number a digit run denotes, most significant digit first.
pub open spec fn digits_value(s: Seq<u8>) -> int
    decreases s.len(),
{
    if s.len() == 0 {
        0
    } else {
        10 * digits_value(s.drop_last()) + (s.last() - 48)
    }
}

/// Dropping leading whitespace is taking the suffix that starts at the
/// first non-whitespace byte.
proof fn lemma_trim_front_subrange(s: Seq<u8>, i: int)
    requires
        0 <= i <= s.len(),
        forall|k: int| 0 <= k < i ==> is_ascii_whitespace(s[k]),
        i == s.len() || !is_ascii_whitespace(s[i]),
    ensures
        trim_front(s) == s.subrange(i, s.len() as int),
    decreases i,
{
    if i == 0 {
        assert(s.subrange(0, s.len() as int) =~= s);
    } else {
        let t = s.drop_first();
        assert(forall|k: int| 0 <= k < i - 1 ==> is_ascii_whitespace(#[trigger] t[k]));
        lemma_trim_front_subrange(t, i - 1);
        assert(t.subrange(i - 1, t.len() as int) =~= s.subrange(i, s.len() as int));
    }
}

/// Dropping trailing whitespace is taking the prefix that ends after the
/// last non-whitespace byte.
proof fn lemma_trim_back_subrange(s: Seq<u8>, j: int)
    requires
        0 <= j <= s.len(),
        forall|k: int| j <= k < s.len() ==> is_ascii_whitespace(s[k]),
        j == 0 || !is_ascii_whitespace(s[j - 1]),
    ensures
        trim_back(s) == s.subrange(0, j),
    decreases s.len() - j,
{
    if j == s.len() {
        assert(s.subrange(0, j) =~= s);
    } else {
        let t = s.drop_last();
        lemma_trim_back_subrange(t, j);
        assert(t.subrange(0, j) =~= s.subrange(0, j));
    }
}

/// The value of a digit run is never negative.
proof fn lemma_digits_value_nonneg(s: Seq<u8>)
    requires
        all_digits(s),
    ensures
        digits_value(s) >= 0,
    decreases s.len(),
{
    if s.len() > 0 {
        let t = s.drop_last();
        assert(forall|k: int| 0 <= k < t.len() ==> is_ascii_digit(#[trigger] t[k]));
        lemma_digits_value_nonneg(t);
    }
}

/// The value of a digit run is at least the value of any of its
/// prefixes: appending digits never shrinks the number.
proof fn lemma_digits_value_prefix_le(s: Seq<u8>, i: int)
    requires
        all_digits(s),
        0 <= i <= s.len(),
    ensures
        digits_value(s.take(i)) <= digits_value(s),
    decreases s.len() - i,
{
    if i == s.len() {
        assert(s.take(i) =~= s);
    } else {
        assert(s.take(i + 1).drop_last() =~= s.take(i));
        assert(s.take(i + 1).last() == s[i]);
        assert(forall|k: int| 0 <= k < i ==> is_ascii_digit(#[trigger] s.take(i)[k]));
        lemma_digits_value_nonneg(s.take(i));
        lemma_digits_value_prefix_le(s, i + 1);
    }
}

/// Parse the console line as a port number and hold it against the
/// number of available ports. The line is trimmed of surrounding
/// whitespace; it must be a non-empty run of decimal digits denoting a
/// number below `port_count`, and each failure is told apart: a
/// non-numeric line, or a number that names no port.
pub fn parse_selection(port_count: usize, line: &[u8]) -> (r: Result<usize, StartupError>)
    ensures
        ({
            let t = spec_trim(line@);
            match r {
                Ok(i) => is_numeric(t) && i == digits_value(t) && i < port_count,
                Err(StartupError::SelectionNotNumeric) => !is_numeric(t),
                Err(StartupError::InvalidPortSelection) => is_numeric(t) && digits_value(t)
                    >= port_count,
                Err(_) => false,
            }
        }),
{
    let n = line.len();
    let mut lo: usize = 0;
    while lo < n && (line[lo] == 32 || line[lo] == 9 || line[lo] == 10 || line[lo] == 13)
        invariant
            lo <= n,
            n == line@.len(),
            forall|k: int| 0 <= k < lo ==> is_ascii_whitespace(line@[k]),
        decreases n - lo,
    {
        lo += 1;
    }
    if lo == n {
        proof {
            lemma_trim_front_subrange(line@, n as int);
            assert(trim_front(line@) =~= Seq::<u8>::empty());
            assert(spec_trim(line@).len() == 0);
        }
        return Err(StartupError::SelectionNotNumeric);
    }
    let mut hi: usize = n;
    while hi > lo && (line[hi - 1] == 32 || line[hi - 1] == 9 || line[hi - 1] == 10 || line[hi - 1]
        == 13)
        invariant
            lo < hi <= n,
            n == line@.len(),
            !is_ascii_whitespace(line@[lo as int]),
            forall|k: int| hi <= k < n ==> is_ascii_whitespace(line@[k]),
        decreases hi,
    {
        hi -= 1;
    }
    let ghost t = spec_trim(line@);
    proof {
        lemma_trim_front_subrange(line@, lo as int);
        let u = line@.subrange(lo as int, n as int);
        assert(forall|k: int| hi - lo <= k < u.len() ==> is_ascii_whitespace(#[trigger] u[k]));
        lemma_trim_back_subrange(u, hi - lo);
        assert(u.subrange(0, hi - lo) =~= line@.subrange(lo as int, hi as int));
        assert(t == line@.subrange(lo as int, hi as int));
    }
    let mut k: usize = lo;
    while k < hi
        invariant
            lo <= k <= hi,
            lo < hi,
            hi <= n,
            n == line@.len(),
            t == spec_trim(line@),
            t == line@.subrange(lo as int, hi as int),
            forall|j: int| lo <= j < k ==> is_ascii_digit(line@[j]),
        decreases hi - k,
    {
        let b = line[k];
        if !(48 <= b && b <= 57) {
            proof {
                assert(t[k - lo] == line@[k as int]);
                assert(!all_digits(t));
            }
            return Err(StartupError::SelectionNotNumeric);
        }
        k += 1;
    }
    proof {
        assert(forall|j: int| 0 <= j < t.len() ==> #[trigger] t[j] == line@[lo + j]);
        assert(all_digits(t));
        assert(is_numeric(t));
    }
    let mut acc: usize = 0;
    let mut pos: usize = lo;
    while pos < hi
        invariant
            lo <= pos <= hi,
            lo < hi,
            hi <= n,
            n == line@.len(),
            t == spec_trim(line@),
            t == line@.subrange(lo as int, hi as int),
            all_digits(t),
            t.len() == hi - lo,
            acc == digits_value(t.take(pos - lo)),
        decreases hi - pos,
    {
        let b = line[pos];
        proof {
            assert(t[pos - lo] == line@[pos as int]);
            assert(is_ascii_digit(b));
        }
        let dv = (b - 48) as usize;
        let stepped = match acc.checked_mul(10) {
            Some(x) => x.checked_add(dv),
            None => None,
        };
        proof {
            let i = pos - lo;
            assert(t.take(i + 1).drop_last() =~= t.take(i as int));
            assert(t.take(i + 1).last() == t[i as int]);
            assert(digits_value(t.take(i + 1)) == 10 * acc + (b - 48));
        }
        match stepped {
            Some(x) => {
                acc = x;
                pos += 1;
            },
            None => {
                proof {
                    assert(digits_value(t.take(pos - lo + 1)) > usize::MAX);
                    lemma_digits_value_prefix_le(t, pos - lo + 1);
                }
                return Err(StartupError::InvalidPortSelection);
            },
        }
    }
    proof {
        assert(t.take(hi - lo) =~= t);
    }
    if acc < port_count {
        Ok(acc)
    } else {
        Err(StartupError::InvalidPortSelection)
    }
}

} // verus!
