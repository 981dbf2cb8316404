//! The instruction list of a mint transaction, as the pipeline models it:
//! a compute-unit-limit directive, an optional compute-unit-price directive,
//! and last the mint directive itself.

use vstd::prelude::*;

verus! {

/// Compute-unit ceiling attached to every mint transaction; a fixed margin
/// over the mint instruction's execution cost, not derived dynamically.
pub const COMPUTE_UNIT_LIMIT: u32 = 400_000;

/// A 32-byte on-chain account address.
#[derive(Clone, Copy, Debug, PartialEq, Eq)]
pub struct Address {
    pub bytes: [u8; 32],
}

/// One instruction of a mint transaction.
#[derive(Clone, Copy, Debug, PartialEq, Eq)]
pub enum SolmapInstruction {
    /// Caps the compute units the transaction may consume.
    ComputeUnitLimit { units: u32 },
    /// Sets the price paid per compute unit for priority processing.
    ComputeUnitPrice { micro_lamports: u64 },
    /// Creates the numbered token, paid and authorized by `payer`, at the
    /// address `mint_identity`.
    MintSolmap { payer: Address, mint_identity: Address, solmap_number: u64 },
}

/// The ordered instruction list of one mint attempt. Order is significant:
/// compute-budget directives come first, the mint directive is always last.
pub open spec fn instruction_plan(
    payer: Address,
    mint_identity: Address,
    solmap_number: u64,
    priority_fee: Option<u64>,
) -> Seq<SolmapInstruction> {
    let limit = SolmapInstruction::ComputeUnitLimit { units: COMPUTE_UNIT_LIMIT };
    let mint = SolmapInstruction::MintSolmap { payer, mint_identity, solmap_number };
    match priority_fee {
        None => seq![limit, mint],
        Some(rate) => seq![
            limit,
            SolmapInstruction::ComputeUnitPrice { micro_lamports: rate },
            mint,
        ],
    }
}

/// Builds the instruction list, exactly as `instruction_plan` states. Pure
/// assembly: no validation of the number's range or prior use, which the
/// ledger program enforces on-chain.
pub fn build_instructions(
    payer: Address,
    mint_identity: Address,
    solmap_number: u64,
    priority_fee: Option<u64>,
) -> (r: Vec<SolmapInstruction>)
    ensures
        r@ == instruction_plan(payer, mint_identity, solmap_number, priority_fee),
{
    let mut out: Vec<SolmapInstruction> = Vec::new();
    out.push(SolmapInstruction::ComputeUnitLimit { units: COMPUTE_UNIT_LIMIT });
    if let Some(rate) = priority_fee {
        out.push(SolmapInstruction::ComputeUnitPrice { micro_lamports: rate });
    }
    out.push(SolmapInstruction::MintSolmap { payer, mint_identity, solmap_number });
    proof {
        assert(out@ =~= instruction_plan(payer, mint_identity, solmap_number, priority_fee));
    }
    out
}

} // verus!
