//! The values of literal tokens: integers, string contents.
use vstd::prelude::*;

use crate::lexer::rules::is_digit;

verus! {

/// The value of the decimal digits `ds`.
pub open spec fn digits_value(ds: Seq<char>) -> int
    decreases ds.len(),
{
    if ds.len() == 0 {
        0
    } else {
        digits_value(ds.drop_last()) * 10 + ((ds.last() as u32) - 0x30)
    }
}

/// Whether every character of `ds` is an ASCII digit.
pub open spec fn all_digits(ds: Seq<char>) -> bool {
    forall|k: int| 0 <= k < ds.len() ==> #[trigger] is_digit(ds[k])
}

/// The 64-bit signed integer that `s` spells: an optional `+` or `-`, then
/// one or more ASCII digits, with a value in range; `None` otherwise.
pub open spec fn parse_i64_spec(s: Seq<char>) -> Option<i64> {
    let signed = s.len() > 0 && (s[0] == '-' || s[0] == '+');
    let neg = s.len() > 0 && s[0] == '-';
    let ds = if signed { s.drop_first() } else { s };
    let v = if neg { -digits_value(ds) } else { digits_value(ds) };
    if ds.len() == 0 || !all_digits(ds) {
        None
    } else if i64::MIN <= v <= i64::MAX {
        Some(v as i64)
    } else {
        None
    }
}

proof fn lemma_digits_step(ds: Seq<char>, k: int)
    requires
        0 <= k < ds.len(),
    ensures
        digits_value(ds.take(k + 1)) == digits_value(ds.take(k)) * 10 + ((ds[k] as u32) - 0x30),
{
    assert(ds.take(k + 1).drop_last() =~= ds.take(k));
    assert(ds.take(k + 1).last() == ds[k]);
}

proof fn lemma_digits_value_prefix(ds: Seq<char>, k: int)
    requires
        0 <= k <= ds.len(),
        all_digits(ds),
    ensures
        0 <= digits_value(ds.take(k)) <= digits_value(ds),
    decreases ds.len() - k,
{
    if k < ds.len() {
        lemma_digits_value_prefix(ds, k + 1);
        assert(ds.take(k + 1).drop_last() =~= ds.take(k));
        assert(is_digit(ds[k]));
    } else {
        assert(ds.take(k) =~= ds);
    }
    lemma_digits_value_nonneg(ds.take(k));
}

proof fn lemma_digits_value_nonneg(ds: Seq<char>)
    requires
        all_digits(ds),
    ensures
        digits_value(ds) >= 0,
    decreases ds.len(),
{
    if ds.len() > 0 {
        assert(all_digits(ds.drop_last())) by {
            assert forall|k: int| 0 <= k < ds.drop_last().len() implies #[trigger] is_digit(
                ds.drop_last()[k],
            ) by {
                assert(ds.drop_last()[k] == ds[k]);
            }
        }
        lemma_digits_value_nonneg(ds.drop_last());
        assert(is_digit(ds[ds.len() - 1]));
    }
}

/// The 64-bit signed integer that `s` spells, as `str::parse::<i64>` reads it.
pub fn parse_i64(s: &[char]) -> (r: Option<i64>)
    ensures
        r == parse_i64_spec(s@),
{
    let n = s.len();
    let signed = n > 0 && (s[0] == '-' || s[0] == '+');
    let neg = n > 0 && s[0] == '-';
    let start: usize = if signed { 1 } else { 0 };
    let ghost ds = if signed { s@.drop_first() } else { s@ };
    if start == n {
        return None;
    }
    let mut acc: u128 = 0;
    let mut i: usize = start;
    while i < n
        invariant
            start <= i <= n,
            n == s@.len(),
            signed == (s@.len() > 0 && (s@[0] == '-' || s@[0] == '+')),
            neg == (s@.len() > 0 && s@[0] == '-'),
            ds == (if signed { s@.drop_first() } else { s@ }),
            start == n - ds.len(),
            forall|k: int| 0 <= k < ds.len() ==> ds[k] == s@[start + k],
            forall|k: int| 0 <= k < i - start ==> #[trigger] is_digit(ds[k]),
            acc == digits_value(ds.take(i - start)),
            acc <= 0x8000_0000_0000_0000,
        decreases n - i,
    {
        let c = s[i];
        let u = c as u32;
        if !(0x30 <= u && u <= 0x39) {
            proof {
                assert(!is_digit(ds[i - start]));
                assert(!all_digits(ds));
            }
            return None;
        }
        let d = (u - 0x30) as u128;
        proof {
            lemma_digits_step(ds, i - start);
            assert(acc * 10 + d <= 0x8000_0000_0000_0000 * 10 + 9) by (nonlinear_arith)
                requires
                    acc <= 0x8000_0000_0000_0000,
                    d <= 9,
            ;
        }
        acc = acc * 10 + d;
        i = i + 1;
        if acc > 0x8000_0000_0000_0000 {
            proof {
                if all_digits(ds) {
                    lemma_digits_value_prefix(ds, i - start);
                }
            }
            return None;
        }
    }
    proof {
        assert(ds.take(n - start) =~= ds);
        assert(all_digits(ds));
    }
    if neg {
        let v: i128 = 0i128 - (acc as i128);
        Some(v as i64)
    } else if acc <= 0x7FFF_FFFF_FFFF_FFFF {
        Some(acc as i64)
    } else {
        None
    }
}

/// What the escape `\c` stands for: a newline, a tab, a carriage return, a
/// backslash or a quote for `n`, `t`, `r`, `\` and `"`; otherwise the
/// backslash and `c` as they are.
pub open spec fn escape_of(c: char) -> Seq<char> {
    if c == 'n' {
        seq!['\n']
    } else if c == 't' {
        seq!['\t']
    } else if c == 'r' {
        seq!['\r']
    } else if c == '\\' {
        seq!['\\']
    } else if c == '"' {
        seq!['"']
    } else {
        seq!['\\', c]
    }
}

/// `s` with its escapes resolved; a backslash at the very end stays.
pub open spec fn unescape_spec(s: Seq<char>) -> Seq<char>
    decreases s.len(),
{
    if s.len() == 0 {
        Seq::empty()
    } else if s[0] == '\\' {
        if s.len() == 1 {
            seq!['\\']
        } else {
            escape_of(s[1]) + unescape_spec(s.subrange(2, s.len() as int))
        }
    } else {
        seq![s[0]] + unescape_spec(s.subrange(1, s.len() as int))
    }
}

/// `s` with its escapes resolved.
pub fn unescape(s: &[char]) -> (r: Vec<char>)
    ensures
        r@ == unescape_spec(s@),
{
    let n = s.len();
    let mut out: Vec<char> = Vec::new();
    let mut i: usize = 0;
    proof {
        assert(s@.subrange(0, n as int) =~= s@);
        assert(out@ + unescape_spec(s@) =~= unescape_spec(s@));
    }
    while i < n
        invariant
            i <= n,
            n == s@.len(),
            out@ + unescape_spec(s@.subrange(i as int, n as int)) == unescape_spec(s@),
        decreases n - i,
    {
        let ghost rest = s@.subrange(i as int, n as int);
        let c = s[i];
        if c == '\\' {
            if i + 1 < n {
                let e = s[i + 1];
                let ghost before = out@;
                if e == 'n' {
                    out.push('\n');
                } else if e == 't' {
                    out.push('\t');
                } else if e == 'r' {
                    out.push('\r');
                } else if e == '\\' {
                    out.push('\\');
                } else if e == '"' {
                    out.push('"');
                } else {
                    out.push('\\');
                    out.push(e);
                }
                proof {
                    assert(rest.subrange(2, rest.len() as int) =~= s@.subrange(i + 2, n as int));
                    assert(out@ =~= before + escape_of(e));
                    assert(before + unescape_spec(rest) == unescape_spec(s@));
                    assert(unescape_spec(rest) == escape_of(e) + unescape_spec(
                        s@.subrange(i + 2, n as int),
                    ));
                    assert(out@ + unescape_spec(s@.subrange(i + 2, n as int)) =~= before
                        + unescape_spec(rest));
                }
                i = i + 2;
            } else {
                let ghost before = out@;
                out.push('\\');
                proof {
                    assert(s@.subrange(i + 1, n as int) =~= Seq::<char>::empty());
                    assert(out@ + unescape_spec(s@.subrange(i + 1, n as int)) =~= before
                        + unescape_spec(rest));
                }
                i = i + 1;
            }
        } else {
            let ghost before = out@;
            out.push(c);
            proof {
                assert(rest.subrange(1, rest.len() as int) =~= s@.subrange(i + 1, n as int));
                assert(out@ + unescape_spec(s@.subrange(i + 1, n as int)) =~= before
                    + unescape_spec(rest));
            }
            i = i + 1;
        }
    }
    proof {
        assert(s@.subrange(n as int, n as int) =~= Seq::<char>::empty());
        assert(out@ + Seq::<char>::empty() =~= out@);
    }
    out
}

/// The contents of a string literal's text: without its quotes when it has
/// at least two characters and starts and ends with a quote, else the whole
/// text.
pub open spec fn strip_quotes_spec(text: Seq<char>) -> Seq<char> {
    if text.len() >= 2 && text[0] == '"' && text[text.len() - 1] == '"' {
        text.subrange(1, text.len() - 1)
    } else {
        text
    }
}

} // verus!
