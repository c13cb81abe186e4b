//! The per-request delay decision.
//!
//! Each response is delayed by a configurable number of milliseconds. The
//! configuration value is a decimal numeral read anew for every request; when
//! none is set, a default applies; a value that is not a valid `u64` numeral
//! yields no decision at all (the caller treats that as fatal rather than
//! falling back to the default).

use vstd::prelude::*;

verus! {

/// Milliseconds of artificial delay used when no configuration value is set.
pub const DEFAULT_SLEEP_MS: u64 = 150;

/// A decimal digit character, `'0'` through `'9'`.
pub open spec fn is_dec_digit(c: char) -> bool {
    48 <= c as int && c as int <= 57
}

/// The numeric value of a decimal digit character.
pub open spec fn dec_digit_value(c: char) -> nat {
    (c as int - 48) as nat
}

/// Every character of `s` is a decimal digit.
pub open spec fn all_dec_digits(s: Seq<char>) -> bool {
    forall|i: int| 0 <= i < s.len() ==> is_dec_digit(#[trigger] s[i])
}

/// The number denoted by a sequence of decimal digits, most significant
/// digit first.
pub open spec fn dec_value(s: Seq<char>) -> nat
    decreases s.len(),
{
    if s.len() == 0 {
        0
    } else {
        dec_value(s.drop_last()) * 10 + dec_digit_value(s.last())
    }
}

/// The digits of a decimal numeral: everything after an optional leading
/// `'+'` sign.
pub open spec fn digit_part(s: Seq<char>) -> Seq<char> {
    if s.len() > 0 && s[0] == '+' {
        s.subrange(1, s.len() as int)
    } else {
        s
    }
}

/// What parsing a `u64` numeral accepts: an optional `'+'`, then at least
/// one decimal digit, denoting a value that fits in a `u64`.
pub open spec fn parse_u64_spec(s: Seq<char>) -> Option<u64> {
    let d = digit_part(s);
    if d.len() > 0 && all_dec_digits(d) && dec_value(d) <= u64::MAX {
        Some(dec_value(d) as u64)
    } else {
        None
    }
}

/// Appending digits never decreases the denoted value.
proof fn lemma_dec_value_prefix(s: Seq<char>, j: int, k: int)
    requires
        0 <= j <= k <= s.len(),
        all_dec_digits(s),
    ensures
        dec_value(s.subrange(0, j)) <= dec_value(s.subrange(0, k)),
    decreases k - j,
{
    if j < k {
        lemma_dec_value_prefix(s, j, k - 1);
        let p = s.subrange(0, k - 1);
        let q = s.subrange(0, k);
        assert(q.drop_last() =~= p);
        assert(dec_value(q) == dec_value(p) * 10 + dec_digit_value(s[k - 1]));
        assert(dec_value(p) * 10 >= dec_value(p)) by (nonlinear_arith);
    }
}

/// Parses a decimal `u64` numeral: an optional leading `'+'`, then one or
/// more decimal digits. Returns `None` on an empty numeral, a non-digit
/// character, or a value too large for a `u64`.
pub fn parse_u64(s: &str) -> (r: Option<u64>)
    ensures
        r == parse_u64_spec(s@),
{
    let n: usize = s.unicode_len();
    let mut i: usize = 0;
    if n > 0 && s.get_char(0) == '+' {
        i = 1;
    }
    let start: usize = i;
    proof {
        assert(digit_part(s@) =~= s@.subrange(start as int, n as int));
    }
    if i == n {
        return None;
    }
    let mut acc: u64 = 0;
    while i < n
        invariant
            start <= i <= n,
            n == s@.len(),
            digit_part(s@) =~= s@.subrange(start as int, n as int),
            all_dec_digits(s@.subrange(start as int, i as int)),
            acc as nat == dec_value(s@.subrange(start as int, i as int)),
        decreases n - i,
    {
        let c: char = s.get_char(i);
        let v: u32 = c as u32;
        if v < 48 || v > 57 {
            proof {
                assert(digit_part(s@)[i - start] == s@[i as int]);
                assert(!is_dec_digit(s@[i as int]));
            }
            return None;
        }
        let d: u64 = (v - 48) as u64;
        proof {
            assert(is_dec_digit(s@[i as int]));
            assert(d as nat == dec_digit_value(s@[i as int]));
            let pre = s@.subrange(start as int, i as int);
            let ext = s@.subrange(start as int, i + 1 as int);
            assert(ext.drop_last() =~= pre);
            assert(dec_value(ext) == acc as nat * 10 + d as nat);
        }
        if acc > u64::MAX / 10 || d > u64::MAX - acc * 10 {
            proof {
                lemma_numeral_overflows(s@, start as int, i as int, acc as nat, d as nat);
            }
            return None;
        }
        acc = acc * 10 + d;
        i = i + 1;
        proof {
            assert(s@.subrange(start as int, i as int) =~= s@.subrange(
                start as int,
                (i - 1) as int,
            ).push(s@[i - 1]));
        }
    }
    proof {
        assert(s@.subrange(start as int, i as int) =~= digit_part(s@));
    }
    Some(acc)
}

/// Once one digit position already pushes the accumulated value past
/// `u64::MAX`, the whole numeral denotes no `u64`.
proof fn lemma_numeral_overflows(s: Seq<char>, start: int, i: int, acc: nat, d: nat)
    requires
        0 <= start <= i < s.len(),
        all_dec_digits(s.subrange(start, i)),
        is_dec_digit(s[i]),
        acc == dec_value(s.subrange(start, i)),
        d == dec_digit_value(s[i]),
        acc * 10 + d > u64::MAX,
    ensures
        parse_u64_spec(s) == Option::<u64>::None || digit_part(s) != s.subrange(
            start,
            s.len() as int,
        ),
{
    let t = s.subrange(start, s.len() as int);
    if digit_part(s) == t {
        if all_dec_digits(t) {
            let ext = s.subrange(start, i + 1);
            assert(ext.drop_last() =~= s.subrange(start, i));
            assert(dec_value(ext) == acc * 10 + d);
            assert(t.subrange(0, i + 1 - start) =~= ext);
            assert(t.subrange(0, t.len() as int) =~= t);
            lemma_dec_value_prefix(t, i + 1 - start, t.len() as int);
            assert(dec_value(t) > u64::MAX);
        }
    }
}

/// The view of an optional string: the configuration value as it stands in
/// contracts.
pub open spec fn cfg_view(cfg: Option<&str>) -> Option<Seq<char>> {
    match cfg {
        Some(s) => Some(s@),
        None => None,
    }
}

/// The delay decision: the default when no value is configured, the parsed
/// value when the configured numeral is valid, and no decision at all when
/// it is not.
pub open spec fn sleep_millis_spec(cfg: Option<Seq<char>>) -> Option<u64> {
    match cfg {
        Some(s) => parse_u64_spec(s),
        None => Some(DEFAULT_SLEEP_MS),
    }
}

/// A present configuration value is always parsed, never defaulted: the
/// delay decision for it is exactly the parse of its numeral, so an invalid
/// numeral yields no decision at all rather than falling back to
/// `DEFAULT_SLEEP_MS`.
pub proof fn lemma_configured_value_never_defaults(s: Seq<char>)
    ensures
        sleep_millis_spec(Some(s)) == parse_u64_spec(s),
        parse_u64_spec(s) is None ==> sleep_millis_spec(Some(s)) is None,
{
}

/// Decides how many milliseconds a response is to be delayed. `None` means
/// the configured value is unusable, which the caller must treat as fatal:
/// an invalid numeral never silently falls back to the default.
pub fn sleep_millis(cfg: Option<&str>) -> (r: Option<u64>)
    ensures
        r == sleep_millis_spec(cfg_view(cfg)),
{
    match cfg {
        Some(s) => parse_u64(s),
        None => Some(DEFAULT_SLEEP_MS),
    }
}

} // verus!
