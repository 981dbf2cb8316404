//! The console lines the pipeline reports to the operator, built with exact
//! character-level contracts.

use vstd::prelude::*;
use vstd::string::StrSliceExecFns;
use vstd::string::StringExecFns;

use crate::fee::sol_amount_string;
use crate::fee::sol_display;
use crate::numerals::dec_digits;
use crate::numerals::u64_to_dec_string;

verus! {

/// The progress line printed when a mint attempt starts.
pub open spec fn minting_line(solmap_number: nat) -> Seq<char> {
    "Minting solmap number "@ + dec_digits(solmap_number)
}

/// The fee report printed before submission when the boost flag is set.
pub open spec fn fee_line(rate: nat) -> Seq<char> {
    "Priority fee "@ + sol_display(rate) + " SOL"@
}

/// The success line printed once the network confirms the transaction.
pub open spec fn success_line(solmap_number: nat, signature: Seq<char>) -> Seq<char> {
    "Minted solmap number "@ + dec_digits(solmap_number) + " with signature "@ + signature
}

/// Renders the progress line for the given solmap number.
pub fn minting_message(solmap_number: u64) -> (r: String)
    ensures
        r@ == minting_line(solmap_number as nat),
{
    let mut s = String::from_str("Minting solmap number ");
    let digits = u64_to_dec_string(solmap_number);
    s.append(digits.as_str());
    proof {
        assert(s@ =~= minting_line(solmap_number as nat));
    }
    s
}

/// Renders the fee report for the given rate, in SOL.
pub fn fee_message(rate: u64) -> (r: String)
    ensures
        r@ == fee_line(rate as nat),
{
    let mut s = String::from_str("Priority fee ");
    let amount = sol_amount_string(rate);
    s.append(amount.as_str());
    s.append(" SOL");
    proof {
        assert(s@ =~= fee_line(rate as nat));
    }
    s
}

/// Renders the success line for the given solmap number and transaction
/// signature.
pub fn success_message(solmap_number: u64, signature: &str) -> (r: String)
    ensures
        r@ == success_line(solmap_number as nat, signature@),
{
    let mut s = String::from_str("Minted solmap number ");
    let digits = u64_to_dec_string(solmap_number);
    s.append(digits.as_str());
    s.append(" with signature ");
    s.append(signature);
    proof {
        assert(s@ =~= success_line(solmap_number as nat, signature@));
    }
    s
}

} // verus!
