//! Lexicographic order of character sequences, and decimal numbers in text.
use vstd::prelude::*;

use crate::text::{chars_of, is_ascii_digit_spec};

verus! {

/// Three-way lexicographic comparison: -1, 0 or 1. For strings this is the
/// order of `str`'s `Ord`: UTF-8 preserves the order of code points, so
/// comparing characters compares the encoded bytes.
pub open spec fn seq_order(a: Seq<char>, b: Seq<char>) -> int
    decreases a.len(),
{
    if a.len() == 0 {
        if b.len() == 0 {
            0
        } else {
            -1
        }
    } else if b.len() == 0 {
        1
    } else if a[0] < b[0] {
        -1
    } else if a[0] > b[0] {
        1
    } else {
        seq_order(a.drop_first(), b.drop_first())
    }
}

pub proof fn lemma_seq_order_range(a: Seq<char>, b: Seq<char>)
    ensures
        -1 <= seq_order(a, b) <= 1,
    decreases a.len(),
{
    if a.len() > 0 && b.len() > 0 && a[0] == b[0] {
        lemma_seq_order_range(a.drop_first(), b.drop_first());
    }
}

/// Swapping the arguments negates the comparison.
pub proof fn lemma_seq_order_antisymmetric(a: Seq<char>, b: Seq<char>)
    ensures
        seq_order(a, b) == -seq_order(b, a),
    decreases a.len(),
{
    if a.len() > 0 && b.len() > 0 && a[0] == b[0] {
        lemma_seq_order_antisymmetric(a.drop_first(), b.drop_first());
    }
}

/// Only equal sequences compare equal.
pub proof fn lemma_seq_order_zero_is_equal(a: Seq<char>, b: Seq<char>)
    ensures
        seq_order(a, b) == 0 <==> a == b,
    decreases a.len(),
{
    if a.len() > 0 && b.len() > 0 && a[0] == b[0] {
        lemma_seq_order_zero_is_equal(a.drop_first(), b.drop_first());
        if a.drop_first() == b.drop_first() {
            assert forall|i: int| 0 <= i < a.len() implies a[i] == b[i] by {
                if i > 0 {
                    assert(a[i] == a.drop_first()[i - 1]);
                    assert(b[i] == b.drop_first()[i - 1]);
                }
            }
            assert(a =~= b);
        }
        if a == b {
            assert(a.drop_first() =~= b.drop_first());
        }
    } else if a.len() > 0 && b.len() > 0 {
        if a == b {
            assert(a[0] == b[0]);
        }
    } else if a.len() != b.len() {
        assert(a != b);
    } else {
        assert(a =~= b);
    }
}

/// The order is transitive, also when one step is strict.
pub proof fn lemma_seq_order_transitive(a: Seq<char>, b: Seq<char>, c: Seq<char>)
    requires
        seq_order(a, b) >= 0,
        seq_order(b, c) >= 0,
    ensures
        seq_order(a, c) >= 0,
        seq_order(a, b) > 0 || seq_order(b, c) > 0 ==> seq_order(a, c) > 0,
    decreases a.len(),
{
    if a.len() > 0 && b.len() > 0 && c.len() > 0 && a[0] == b[0] && b[0] == c[0] {
        lemma_seq_order_transitive(a.drop_first(), b.drop_first(), c.drop_first());
    }
}

/// Three-way lexicographic comparison of two string slices.
pub fn str_order(a: &str, b: &str) -> (r: i8)
    ensures
        r as int == seq_order(a@, b@),
{
    let x = chars_of(a);
    let y = chars_of(b);
    let mut i: usize = 0;
    assert(a@.skip(0) =~= a@);
    assert(b@.skip(0) =~= b@);
    while i < x.len() && i < y.len() && x[i] == y[i]
        invariant
            x@ == a@,
            y@ == b@,
            i <= x.len(),
            i <= y.len(),
            seq_order(a@, b@) == seq_order(a@.skip(i as int), b@.skip(i as int)),
        decreases x.len() - i,
    {
        assert(a@.skip(i as int).drop_first() =~= a@.skip(i + 1));
        assert(b@.skip(i as int).drop_first() =~= b@.skip(i + 1));
        i = i + 1;
    }
    if i == x.len() {
        if i == y.len() {
            0
        } else {
            -1
        }
    } else if i == y.len() {
        1
    } else if x[i] < y[i] {
        -1
    } else {
        1
    }
}

/// The value of a sequence of decimal digits.
pub open spec fn digits_value(s: Seq<char>) -> int
    decreases s.len(),
{
    if s.len() == 0 {
        0
    } else {
        digits_value(s.drop_last()) * 10 + (s.last() as int - '0' as int)
    }
}

/// Every character is an ASCII decimal digit.
pub open spec fn all_digits(s: Seq<char>) -> bool {
    forall|i: int| 0 <= i < s.len() ==> #[trigger] is_ascii_digit_spec(s[i])
}

/// The digits of an unsigned decimal: the text without one leading `+`.
pub open spec fn unsigned_digits(s: Seq<char>) -> Seq<char> {
    if s.len() > 0 && s[0] == '+' {
        s.drop_first()
    } else {
        s
    }
}

/// What `u64::from_str` reads from `s`: an optional `+`, then one or more
/// decimal digits whose value fits in 64 bits.
pub open spec fn u64_from_text(s: Seq<char>) -> Option<u64> {
    let d = unsigned_digits(s);
    if d.len() > 0 && all_digits(d) && digits_value(d) <= u64::MAX {
        Some(digits_value(d) as u64)
    } else {
        None
    }
}

proof fn lemma_digits_value_nonnegative(s: Seq<char>)
    requires
        all_digits(s),
    ensures
        digits_value(s) >= 0,
    decreases s.len(),
{
    if s.len() > 0 {
        assert(all_digits(s.drop_last())) by {
            assert forall|i: int| 0 <= i < s.drop_last().len() implies #[trigger] is_ascii_digit_spec(
                s.drop_last()[i],
            ) by {
                assert(is_ascii_digit_spec(s[i]));
            }
        }
        lemma_digits_value_nonnegative(s.drop_last());
        assert(is_ascii_digit_spec(s[s.len() - 1]));
    }
}

/// A longer run of digits is worth at least as much as its prefix.
proof fn lemma_digits_value_prefix(s: Seq<char>, k: int)
    requires
        all_digits(s),
        0 <= k <= s.len(),
    ensures
        digits_value(s.subrange(0, k)) <= digits_value(s),
    decreases s.len() - k,
{
    if k < s.len() {
        lemma_digits_value_prefix(s, k + 1);
        let p = s.subrange(0, k + 1);
        assert(p.drop_last() =~= s.subrange(0, k));
        assert(all_digits(s.subrange(0, k))) by {
            assert forall|i: int| 0 <= i < k implies #[trigger] is_ascii_digit_spec(
                s.subrange(0, k)[i],
            ) by {
                assert(is_ascii_digit_spec(s[i]));
            }
        }
        lemma_digits_value_nonnegative(s.subrange(0, k));
        assert(is_ascii_digit_spec(s[k]));
        assert(p.last() == s[k]);
    } else {
        assert(s.subrange(0, k) =~= s);
    }
}

/// Reads an unsigned 64-bit decimal as `u64::from_str` does.
pub fn parse_u64(text: &str) -> (r: Option<u64>)
    ensures
        r == u64_from_text(text@),
{
    let v = chars_of(text);
    let ghost d = unsigned_digits(text@);
    let start: usize = if v.len() > 0 && v[0] == '+' {
        1
    } else {
        0
    };
    assert(d =~= text@.subrange(start as int, text@.len() as int));
    if start == v.len() {
        return None;
    }
    let mut acc: u64 = 0;
    let mut i: usize = start;
    while i < v.len()
        invariant
            v@ == text@,
            d == unsigned_digits(text@),
            d == text@.subrange(start as int, text@.len() as int),
            start <= i <= v.len(),
            all_digits(d.subrange(0, i - start)),
            acc as int == digits_value(d.subrange(0, i - start)),
        decreases v.len() - i,
    {
        let c = v[i];
        let ghost k = i - start;
        assert(d[k] == c);
        if !('0' <= c && c <= '9') {
            assert(!is_ascii_digit_spec(d[k]));
            return None;
        }
        let digit: u64 = if c == '0' {
            0
        } else if c == '1' {
            1
        } else if c == '2' {
            2
        } else if c == '3' {
            3
        } else if c == '4' {
            4
        } else if c == '5' {
            5
        } else if c == '6' {
            6
        } else if c == '7' {
            7
        } else if c == '8' {
            8
        } else {
            9
        };
        assert(digit as int == c as int - '0' as int);
        let ghost p = d.subrange(0, k + 1);
        assert(p.drop_last() =~= d.subrange(0, k));
        assert(p.last() == c);
        assert(digits_value(p) == acc * 10 + digit);
        assert(all_digits(p)) by {
            assert forall|j: int| 0 <= j < p.len() implies #[trigger] is_ascii_digit_spec(p[j]) by {
                if j < k {
                    assert(p[j] == d.subrange(0, k)[j]);
                }
            }
        }
        if acc > (u64::MAX - digit) / 10 {
            proof {
                assert(acc * 10 + digit > u64::MAX) by (nonlinear_arith)
                    requires
                        acc > (u64::MAX - digit) / 10,
                        digit <= 9,
                ;
                if all_digits(d) {
                    lemma_digits_value_prefix(d, k + 1);
                }
            }
            return None;
        }
        assert(acc * 10 + digit <= u64::MAX) by (nonlinear_arith)
            requires
                acc <= (u64::MAX - digit) / 10,
                digit <= 9,
        ;
        acc = acc * 10 + digit;
        i = i + 1;
    }
    assert(d.subrange(0, i - start) =~= d);
    Some(acc)
}

} // verus!
