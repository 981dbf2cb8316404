//! Priority-fee policy: resolving the compute-unit price from an operator
//! override or the built-in default, and rendering the fee in SOL for the
//! operator report.

use vstd::prelude::*;
use vstd::string::StrSliceExecFns;
use vstd::string::StringExecFns;

use crate::numerals::dec_digits;
use crate::numerals::dec_value;
use crate::numerals::digit_char;
use crate::numerals::digits_part;
use crate::numerals::is_u64_numeral;
use crate::numerals::lemma_dec_digits_last;
use crate::numerals::lemma_dec_digits_len_le;
use crate::numerals::lemma_dec_digits_shift;
use crate::numerals::lemma_pow10_add;
use crate::numerals::lemma_pow10_pos;
use crate::numerals::lemma_trim_noop;
use crate::numerals::lemma_trim_past_zeros;
use crate::numerals::parse_u64_decimal;
use crate::numerals::pow10;
use crate::numerals::trim_trailing_zeros;
use crate::numerals::u64_to_dec_string;
use crate::numerals::zero_run;

verus! {

/// Compute-unit price applied when the boost flag is set and the operator
/// supplies no override.
pub const DEFAULT_PRIORITY_FEE_RATE: u64 = 500_000;

/// How many of the chain's smallest fee units make one SOL.
pub const FEE_UNITS_PER_SOL: u64 = 1_000_000_000;

/// A malformed fee-rate override: the operator set a value, so falling back
/// to the default would ignore their intent.
#[derive(Clone, Copy, Debug, PartialEq, Eq)]
pub enum FeeError {
    InvalidPriorityFeeRate,
}

/// A usable override string: what unsigned decimal parsing accepts (an
/// optional leading plus sign, then digits), with a value that fits in a
/// `u64`.
pub open spec fn fee_override_valid(s: Seq<char>) -> bool {
    is_u64_numeral(s) && dec_value(digits_part(s)) <= u64::MAX
}

/// The rate a mint attempt pays per compute unit: none without the boost
/// flag, otherwise the override value or the built-in default.
pub open spec fn resolved_fee(boost: bool, fee_override: Option<Seq<char>>) -> Option<u64> {
    if !boost {
        None
    } else {
        match fee_override {
            None => Some(DEFAULT_PRIORITY_FEE_RATE),
            Some(s) => Some(dec_value(digits_part(s)) as u64),
        }
    }
}

/// Resolves the priority-fee rate from the boost flag and the optional
/// environment override. A present override must parse; a malformed one is
/// an error rather than a silent fall-back to the default.
pub fn resolve_priority_fee(boost: bool, fee_override: Option<&str>) -> (r: Result<
    Option<u64>,
    FeeError,
>)
    ensures
        !boost ==> r == Ok::<Option<u64>, FeeError>(None),
        boost && fee_override is None ==> r == Ok::<Option<u64>, FeeError>(
            Some(DEFAULT_PRIORITY_FEE_RATE),
        ),
        fee_override matches Some(s) ==> (boost ==> r == (if fee_override_valid(s@) {
            Ok::<Option<u64>, FeeError>(resolved_fee(boost, Some(s@)))
        } else {
            Err::<Option<u64>, FeeError>(FeeError::InvalidPriorityFeeRate)
        })),
{
    if !boost {
        return Ok(None);
    }
    match fee_override {
        None => Ok(Some(DEFAULT_PRIORITY_FEE_RATE)),
        Some(s) => match parse_u64_decimal(s) {
            Some(v) => Ok(Some(v)),
            None => Err(FeeError::InvalidPriorityFeeRate),
        },
    }
}

/// The fractional digits of a fee of `frac` smallest units, `frac` below one
/// SOL: the nine-digit zero-padded numeral with trailing zeros dropped.
pub open spec fn frac_digits(frac: nat) -> Seq<char> {
    trim_trailing_zeros(zero_run((9 - dec_digits(frac).len()) as nat) + dec_digits(frac))
}

/// The decimal rendering of `rate` smallest fee units as SOL: the whole
/// part, then a point and the fraction when the fraction is not zero.
pub open spec fn sol_display(rate: nat) -> Seq<char> {
    let whole = rate / (FEE_UNITS_PER_SOL as nat);
    let frac = rate % (FEE_UNITS_PER_SOL as nat);
    if frac == 0 {
        dec_digits(whole)
    } else {
        dec_digits(whole) + seq!['.'] + frac_digits(frac)
    }
}

/// Renders a fee rate as a SOL amount, exactly as `sol_display` states.
pub fn sol_amount_string(rate: u64) -> (r: String)
    ensures
        r@ == sol_display(rate as nat),
{
    let whole: u64 = rate / FEE_UNITS_PER_SOL;
    let frac: u64 = rate % FEE_UNITS_PER_SOL;
    let mut s = u64_to_dec_string(whole);
    if frac == 0 {
        return s;
    }
    proof {
        reveal_strlit(".");
    }
    s.append(".");
    proof {
        assert(s@ =~= dec_digits(whole as nat) + seq!['.']);
        reveal_with_fuel(pow10, 10);
        assert(pow10(9) == 1_000_000_000);
    }
    let ghost fracn = frac as nat;
    let ghost head = s@;
    let mut f: u64 = frac;
    let mut width: usize = 9;
    proof {
        assert(f as nat * pow10((9 - width) as nat) == fracn) by (nonlinear_arith)
            requires
                f == frac,
                width == 9,
                pow10(0) == 1,
                fracn == frac as nat,
        ;
    }
    while f % 10 == 0
        invariant
            1 <= f,
            1 <= width <= 9,
            f as nat * pow10((9 - width) as nat) == fracn,
            fracn < pow10(9),
        decreases f,
    {
        proof {
            let k = (9 - width) as nat;
            lemma_pow10_pos(k);
            if f < 10 {
                assert(f == 0);
            }
            assert(f >= 10);
            if width == 1 {
                assert(f as nat * pow10(8) >= 10 * pow10(8)) by (nonlinear_arith)
                    requires
                        f >= 10,
                        pow10(8) >= 1,
                ;
                assert(10 * pow10(8) == pow10(9));
                assert(false);
            }
            assert((f / 10) as nat * pow10((9 - (width - 1)) as nat) == fracn) by (nonlinear_arith)
                requires
                    f as nat * pow10(k) == fracn,
                    f % 10 == 0,
                    f >= 10,
                    pow10((k + 1) as nat) == 10 * pow10(k),
                    (9 - (width - 1)) as nat == k + 1,
            ;
        }
        f = f / 10;
        width = width - 1;
    }
    let ghost k = (9 - width) as nat;
    proof {
        lemma_pow10_pos(k);
        lemma_pow10_add(width as nat, k);
        assert((f as nat) < pow10(width as nat)) by (nonlinear_arith)
            requires
                f as nat * pow10(k) == fracn,
                fracn < pow10(width as nat) * pow10(k),
                pow10(k) >= 1,
        ;
        lemma_dec_digits_len_le(f as nat, width as nat);
    }
    let digits = u64_to_dec_string(f);
    let dl = digits.as_str().unicode_len();
    let pad: usize = width - dl;
    let mut zs: usize = 0;
    while zs < pad
        invariant
            zs <= pad,
            s@ == head + zero_run(zs as nat),
        decreases pad - zs,
    {
        crate::numerals::append_digit(&mut s, 0);
        proof {
            assert(s@ =~= head + zero_run((zs + 1) as nat));
        }
        zs = zs + 1;
    }
    s.append(digits.as_str());
    proof {
        lemma_dec_digits_shift(f as nat, k);
        assert(dec_digits(fracn) =~= dec_digits(f as nat) + zero_run(k));
        let lead = (9 - dec_digits(fracn).len()) as nat;
        assert(dec_digits(fracn).len() == dl + k);
        assert(lead == pad as nat);
        assert(zero_run(lead) + dec_digits(fracn) =~= (zero_run(pad as nat) + dec_digits(f as nat))
            + zero_run(k));
        lemma_trim_past_zeros(zero_run(pad as nat) + dec_digits(f as nat), k);
        lemma_dec_digits_last(f as nat);
        assert((zero_run(pad as nat) + dec_digits(f as nat)).last() == digit_char(
            (f % 10) as nat,
        ));
        lemma_trim_noop(zero_run(pad as nat) + dec_digits(f as nat));
        assert(frac_digits(fracn) == zero_run(pad as nat) + dec_digits(f as nat));
        assert(s@ =~= dec_digits(whole as nat) + seq!['.'] + frac_digits(fracn));
    }
    s
}

} // verus!
