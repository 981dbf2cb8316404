//! Decimal numerals: turning unsigned integers into digit strings and
//! digit strings back into integers, with exact character-level contracts.

use vstd::prelude::*;
use vstd::string::StrSliceExecFns;
use vstd::string::StringExecFns;

verus! {

/// The character standing for one decimal digit.
pub open spec fn digit_char(d: nat) -> char {
    if d == 0 {
        '0'
    } else if d == 1 {
        '1'
    } else if d == 2 {
        '2'
    } else if d == 3 {
        '3'
    } else if d == 4 {
        '4'
    } else if d == 5 {
        '5'
    } else if d == 6 {
        '6'
    } else if d == 7 {
        '7'
    } else if d == 8 {
        '8'
    } else {
        '9'
    }
}

/// Whether a character is one of the ten decimal digits.
pub open spec fn is_dec_digit(c: char) -> bool {
    48 <= c as int && c as int <= 57
}

/// The numeric value of a decimal digit character.
pub open spec fn char_digit(c: char) -> nat {
    (c as int - 48) as nat
}

/// The canonical decimal numeral of `n`: no sign, no leading zero except
/// for the single digit of zero itself.
pub open spec fn dec_digits(n: nat) -> Seq<char>
    decreases n,
{
    if n < 10 {
        seq![digit_char(n)]
    } else {
        dec_digits(n / 10).push(digit_char(n % 10))
    }
}

/// The integer a digit sequence denotes, most significant digit first.
pub open spec fn dec_value(s: Seq<char>) -> nat
    decreases s.len(),
{
    if s.len() == 0 {
        0
    } else {
        dec_value(s.drop_last()) * 10 + char_digit(s.last())
    }
}

/// A well-formed decimal numeral: non-empty and nothing but digits.
pub open spec fn is_dec_string(s: Seq<char>) -> bool {
    s.len() > 0 && forall|i: int| 0 <= i < s.len() ==> is_dec_digit(#[trigger] s[i])
}

/// Appends the digit character of `d` to `s`.
pub(crate) fn append_digit(s: &mut String, d: u64)
    requires
        d < 10,
    ensures
        final(s)@ == old(s)@.push(digit_char(d as nat)),
{
    if d == 0 {
        proof {
            reveal_strlit("0");
        }
        s.append("0");
    } else if d == 1 {
        proof {
            reveal_strlit("1");
        }
        s.append("1");
    } else if d == 2 {
        proof {
            reveal_strlit("2");
        }
        s.append("2");
    } else if d == 3 {
        proof {
            reveal_strlit("3");
        }
        s.append("3");
    } else if d == 4 {
        proof {
            reveal_strlit("4");
        }
        s.append("4");
    } else if d == 5 {
        proof {
            reveal_strlit("5");
        }
        s.append("5");
    } else if d == 6 {
        proof {
            reveal_strlit("6");
        }
        s.append("6");
    } else if d == 7 {
        proof {
            reveal_strlit("7");
        }
        s.append("7");
    } else if d == 8 {
        proof {
            reveal_strlit("8");
        }
        s.append("8");
    } else {
        proof {
            reveal_strlit("9");
        }
        s.append("9");
    }
    proof {
        assert(s@ =~= old(s)@.push(digit_char(d as nat)));
    }
}

proof fn lemma_dec_digits_value(n: nat)
    ensures
        is_dec_string(dec_digits(n)),
        dec_value(dec_digits(n)) == n,
    decreases n,
{
    if n < 10 {
        let s = dec_digits(n);
        assert(s.drop_last() =~= Seq::<char>::empty());
        assert(dec_value(s.drop_last()) == 0);
        assert(char_digit(digit_char(n)) == n);
    } else {
        lemma_dec_digits_value(n / 10);
        let s = dec_digits(n);
        assert(s.drop_last() =~= dec_digits(n / 10));
        assert(char_digit(digit_char(n % 10)) == n % 10);
        assert(dec_value(s) == dec_value(dec_digits(n / 10)) * 10 + char_digit(
            digit_char(n % 10),
        ));
        assert(forall|i: int|
            0 <= i < s.len() ==> is_dec_digit(#[trigger] s[i]) == (if i < s.len() - 1 {
                is_dec_digit(dec_digits(n / 10)[i])
            } else {
                is_dec_digit(digit_char(n % 10))
            }));
    }
}

/// Renders `n` as its canonical decimal numeral: digits only, and the
/// numeral denotes `n` itself.
pub fn u64_to_dec_string(n: u64) -> (r: String)
    ensures
        r@ == dec_digits(n as nat),
        is_dec_string(r@),
        dec_value(r@) == n as nat,
    decreases n,
{
    proof {
        lemma_dec_digits_value(n as nat);
    }
    if n < 10 {
        let mut s = String::new();
        append_digit(&mut s, n);
        proof {
            assert(s@ =~= dec_digits(n as nat));
        }
        s
    } else {
        let mut s = u64_to_dec_string(n / 10);
        append_digit(&mut s, n % 10);
        proof {
            assert(s@ =~= dec_digits(n as nat));
        }
        s
    }
}

proof fn lemma_dec_value_snoc(s: Seq<char>, j: int)
    requires
        0 <= j < s.len(),
    ensures
        dec_value(s.subrange(0, j + 1)) == dec_value(s.subrange(0, j)) * 10 + char_digit(s[j]),
{
    let t = s.subrange(0, j + 1);
    assert(t.drop_last() =~= s.subrange(0, j));
    assert(t.last() == s[j]);
}

proof fn lemma_dec_value_prefix_le(s: Seq<char>, j: int)
    requires
        0 <= j <= s.len(),
    ensures
        dec_value(s.subrange(0, j)) <= dec_value(s),
    decreases s.len() - j,
{
    if j == s.len() {
        assert(s.subrange(0, j) =~= s);
    } else {
        lemma_dec_value_snoc(s, j);
        lemma_dec_value_prefix_le(s, j + 1);
    }
}

/// Powers of ten.
pub open spec fn pow10(k: nat) -> nat
    decreases k,
{
    if k == 0 {
        1
    } else {
        10 * pow10((k - 1) as nat)
    }
}

/// A run of `k` zero digits.
pub open spec fn zero_run(k: nat) -> Seq<char> {
    Seq::new(k, |i: int| '0')
}

/// Drops every trailing zero digit.
pub open spec fn trim_trailing_zeros(s: Seq<char>) -> Seq<char>
    decreases s.len(),
{
    if s.len() > 0 && s.last() == '0' {
        trim_trailing_zeros(s.drop_last())
    } else {
        s
    }
}

pub proof fn lemma_pow10_pos(k: nat)
    ensures
        pow10(k) >= 1,
    decreases k,
{
    if k > 0 {
        lemma_pow10_pos((k - 1) as nat);
    }
}

pub proof fn lemma_pow10_add(a: nat, b: nat)
    ensures
        pow10(a + b) == pow10(a) * pow10(b),
    decreases a,
{
    if a == 0 {
        assert(pow10(b) == 1 * pow10(b)) by (nonlinear_arith);
    } else {
        let a1 = (a - 1) as nat;
        lemma_pow10_add(a1, b);
        assert(10 * (pow10(a1) * pow10(b)) == (10 * pow10(a1)) * pow10(b)) by (nonlinear_arith);
    }
}

pub proof fn lemma_dec_digits_times_ten(n: nat)
    requires
        n >= 1,
    ensures
        dec_digits(n * 10) == dec_digits(n).push('0'),
{
    assert(n * 10 >= 10);
    assert((n * 10) / 10 == n) by (nonlinear_arith);
    assert((n * 10) % 10 == 0) by (nonlinear_arith);
}

pub proof fn lemma_dec_digits_shift(f: nat, k: nat)
    requires
        f >= 1,
    ensures
        dec_digits(f * pow10(k)) == dec_digits(f) + zero_run(k),
    decreases k,
{
    if k == 0 {
        assert(f * pow10(0) == f) by (nonlinear_arith);
        assert(dec_digits(f) + zero_run(0) =~= dec_digits(f));
    } else {
        let k1 = (k - 1) as nat;
        lemma_dec_digits_shift(f, k1);
        lemma_pow10_pos(k1);
        assert(f * pow10(k) == (f * pow10(k1)) * 10) by (nonlinear_arith)
            requires
                pow10(k) == 10 * pow10(k1),
        ;
        assert(f * pow10(k1) >= 1) by (nonlinear_arith)
            requires
                f >= 1,
                pow10(k1) >= 1,
        ;
        lemma_dec_digits_times_ten(f * pow10(k1));
        assert((dec_digits(f) + zero_run(k1)).push('0') =~= dec_digits(f) + zero_run(k));
    }
}

pub proof fn lemma_trim_past_zeros(s: Seq<char>, k: nat)
    ensures
        trim_trailing_zeros(s + zero_run(k)) == trim_trailing_zeros(s),
    decreases k,
{
    if k == 0 {
        assert(s + zero_run(0) =~= s);
    } else {
        let k1 = (k - 1) as nat;
        let t = s + zero_run(k);
        assert(t.last() == '0');
        assert(t.drop_last() =~= s + zero_run(k1));
        lemma_trim_past_zeros(s, k1);
    }
}

pub proof fn lemma_trim_noop(s: Seq<char>)
    requires
        s.len() > 0 ==> s.last() != '0',
    ensures
        trim_trailing_zeros(s) == s,
{
}

pub proof fn lemma_dec_digits_last(n: nat)
    ensures
        dec_digits(n).len() >= 1,
        dec_digits(n).last() == digit_char(n % 10),
{
}

pub proof fn lemma_dec_digits_len_le(n: nat, m: nat)
    requires
        m >= 1,
        n < pow10(m),
    ensures
        dec_digits(n).len() <= m,
    decreases n,
{
    if n < 10 {
    } else {
        if m == 1 {
            assert(pow10(0) == 1);
            assert(pow10(1) == 10);
            assert(false);
        } else {
            let m1 = (m - 1) as nat;
            lemma_pow10_pos(m1);
            assert(n / 10 < pow10(m1)) by (nonlinear_arith)
                requires
                    n < 10 * pow10(m1),
                    pow10(m1) >= 1,
            ;
            lemma_dec_digits_len_le(n / 10, m1);
        }
    }
}

/// The digits of a numeral: the whole string, or what follows a single
/// leading plus sign.
pub open spec fn digits_part(s: Seq<char>) -> Seq<char> {
    if s.len() > 0 && s[0] == '+' {
        s.subrange(1, s.len() as int)
    } else {
        s
    }
}

/// A numeral as unsigned decimal parsing accepts it: an optional leading
/// plus sign, then one or more digits.
pub open spec fn is_u64_numeral(s: Seq<char>) -> bool {
    is_dec_string(digits_part(s))
}

/// Parses a decimal numeral with an optional leading plus sign. Returns the
/// value exactly when at least one digit follows the optional sign, nothing
/// else does, and the value fits in a `u64`.
pub fn parse_u64_decimal(s: &str) -> (r: Option<u64>)
    ensures
        r is Some <==> is_u64_numeral(s@) && dec_value(digits_part(s@)) <= u64::MAX,
        r is Some ==> r->0 as nat == dec_value(digits_part(s@)),
{
    let n = s.unicode_len();
    if n == 0 {
        return None;
    }
    let first = s.get_char(0);
    let start: usize = if first == '+' {
        1
    } else {
        0
    };
    if n == start {
        return None;
    }
    let ghost t = digits_part(s@);
    proof {
        assert(t.len() == n - start);
        assert(forall|j: int| 0 <= j < t.len() ==> t[j] == s@[j + start]);
        assert(t.subrange(0, 0) =~= Seq::<char>::empty());
    }
    let mut acc: u64 = 0;
    let mut i: usize = start;
    while i < n
        invariant
            start <= i <= n,
            n == s@.len(),
            start <= 1,
            t == digits_part(s@),
            t.len() == n - start,
            forall|j: int| 0 <= j < t.len() ==> t[j] == s@[j + start],
            forall|j: int| 0 <= j < i - start ==> is_dec_digit(#[trigger] t[j]),
            acc as nat == dec_value(t.subrange(0, i as int - start as int)),
        decreases n - i,
    {
        let c = s.get_char(i);
        let cv = c as u32;
        proof {
            assert(t[i as int - start as int] == s@[i as int]);
        }
        if cv < 48 || cv > 57 {
            return None;
        }
        let d: u64 = (cv - 48) as u64;
        proof {
            lemma_dec_value_snoc(t, i as int - start as int);
        }
        let widened = match acc.checked_mul(10) {
            Some(v) => v,
            None => {
                proof {
                    lemma_dec_value_prefix_le(t, i as int - start as int + 1);
                }
                return None;
            },
        };
        acc = match widened.checked_add(d) {
            Some(v) => v,
            None => {
                proof {
                    lemma_dec_value_prefix_le(t, i as int - start as int + 1);
                }
                return None;
            },
        };
        i = i + 1;
    }
    proof {
        assert(t.subrange(0, n as int - start as int) =~= t);
    }
    Some(acc)
}

} // verus!
