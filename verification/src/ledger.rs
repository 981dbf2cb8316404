//! The on-chain form of a mint attempt: real keys, instructions and the
//! signed transaction, reached through trusted declarations of the ledger
//! SDK's types and thin wrappers around its calls. The network itself
//! (blockhash fetch, submission) stays with the caller.

use vstd::prelude::*;

use solana_sdk::compute_budget::ComputeBudgetInstruction;
use solana_sdk::instruction::Instruction;
use solana_sdk::pubkey::Pubkey;
use solana_sdk::signature::Keypair;
use solana_sdk::signer::Signer;
use solana_sdk::signer::SignerError;
use solana_sdk::transaction::Transaction;

use crate::fee::FeeError;
use crate::fee::resolved_fee;
use crate::instructions::Address;
use crate::instructions::COMPUTE_UNIT_LIMIT;
use crate::pipeline::fee_setup_ok;
use crate::pipeline::override_view;
use crate::pipeline::MintArgs;
use crate::pipeline::MintAttempt;
use crate::pipeline::MintStage;

verus! {

#[verifier::external_type_specification]
#[verifier::external_body]
pub struct ExPubkey(Pubkey);

#[verifier::external_type_specification]
#[verifier::external_body]
pub struct ExKeypair(Keypair);

#[verifier::external_type_specification]
#[verifier::external_body]
pub struct ExHash(solana_sdk::hash::Hash);

#[verifier::external_type_specification]
#[verifier::external_body]
pub struct ExInstruction(Instruction);

#[verifier::external_type_specification]
#[verifier::external_body]
pub struct ExTransaction(Transaction);

#[verifier::external_type_specification]
#[verifier::external_body]
pub struct ExSignerError(SignerError);

/// The public key of a keypair; it depends on the keypair alone.
pub uninterp spec fn pubkey_of(keypair: Keypair) -> Pubkey;

/// The 32-byte address of a keypair's public half; it depends on the
/// keypair alone.
pub uninterp spec fn address_of(keypair: Keypair) -> Address;

/// The compute-unit-limit directive for `units`; pure byte assembly, so it
/// depends on `units` alone.
pub uninterp spec fn limit_ix_of(units: u32) -> Instruction;

/// The compute-unit-price directive for `micro_lamports`; pure byte
/// assembly, so it depends on `micro_lamports` alone.
pub uninterp spec fn price_ix_of(micro_lamports: u64) -> Instruction;

/// What building an unsigned transaction over `instructions` with `payer`
/// as fee payer yields: the compiled transaction, or nothing where the
/// payer, the program ids and the account metas reference more than 255
/// distinct keys. Compilation is pure and counts and orders keys
/// deterministically, so it depends on the arguments alone.
pub uninterp spec fn tx_build_of(instructions: Seq<Instruction>, payer: Pubkey) -> Option<
    Transaction,
>;

/// What signing `transaction` with the pair {payer, mint identity} under
/// `recent_blockhash` yields: the signed transaction, or the signer error.
/// Ed25519 signing is deterministic, so it depends on the arguments alone.
pub uninterp spec fn sign_of(
    transaction: Transaction,
    payer: Keypair,
    mint_identity: Keypair,
    recent_blockhash: solana_sdk::hash::Hash,
) -> Result<Transaction, SignerError>;

/// Relies on solana_sdk's Keypair::new: a freshly generated random keypair.
/// Nothing is promised of the result; distinctness across calls is a
/// property of the generator, not of this contract.
#[verifier::external_body]
fn generate_keypair() -> (r: Keypair) {
    Keypair::new()
}

/// Relies on solana_sdk's Signer::pubkey: the public half of the keypair,
/// a function of the keypair alone.
#[verifier::external_body]
fn keypair_pubkey(keypair: &Keypair) -> (r: Pubkey)
    ensures
        r == pubkey_of(*keypair),
{
    keypair.pubkey()
}

/// Relies on solana_sdk's Signer::pubkey and Pubkey::to_bytes: the 32 bytes
/// of the keypair's public half, a function of the keypair alone.
#[verifier::external_body]
fn keypair_address(keypair: &Keypair) -> (r: Address)
    ensures
        r == address_of(*keypair),
{
    Address { bytes: keypair.pubkey().to_bytes() }
}

/// Relies on ComputeBudgetInstruction::set_compute_unit_limit: the directive
/// capping the compute units a transaction may consume.
#[verifier::external_body]
fn compute_unit_limit_instruction(units: u32) -> (r: Instruction)
    ensures
        r == limit_ix_of(units),
{
    ComputeBudgetInstruction::set_compute_unit_limit(units)
}

/// Relies on ComputeBudgetInstruction::set_compute_unit_price: the directive
/// setting the price paid per compute unit, in micro-lamports.
#[verifier::external_body]
fn compute_unit_price_instruction(micro_lamports: u64) -> (r: Instruction)
    ensures
        r == price_ix_of(micro_lamports),
{
    ComputeBudgetInstruction::set_compute_unit_price(micro_lamports)
}

/// Relies on Transaction::new_with_payer: an unsigned transaction over the
/// given instructions with the given account as fee payer. Its message
/// compiler cannot carry more than 255 distinct keys across the payer, the
/// program ids and the account metas — every compiled count and index must
/// fit in a `u8`, and past that bound some inputs panic and others would
/// truncate indexes — so the body counts the distinct keys first and
/// reports that case as `None` instead.
#[verifier::external_body]
fn new_transaction_with_payer(instructions: &Vec<Instruction>, payer: &Pubkey) -> (r: Option<
    Transaction,
>)
    ensures
        r == tx_build_of(instructions@, *payer),
{
    let mut keys = std::collections::HashSet::new();
    keys.insert(*payer);
    for instruction in instructions.iter() {
        keys.insert(instruction.program_id);
        for meta in instruction.accounts.iter() {
            keys.insert(meta.pubkey);
        }
    }
    if keys.len() > 255 {
        return None;
    }
    Some(Transaction::new_with_payer(instructions.as_slice(), Some(payer)))
}

/// Relies on Transaction::try_sign: binds the transaction to the blockhash
/// and signs it with exactly the two given keypairs, or reports a signer
/// error (for instance when a keypair is not a required signer). The
/// outcome is deterministic in the arguments, so it carries the name
/// `sign_of`; on an error the transaction may be left partly re-bound, and
/// nothing is stated of it.
#[verifier::external_body]
fn try_sign_transaction(
    transaction: &mut Transaction,
    payer: &Keypair,
    mint_identity: &Keypair,
    recent_blockhash: solana_sdk::hash::Hash,
) -> (r: Result<(), SignerError>)
    ensures
        r is Ok <==> sign_of(*old(transaction), *payer, *mint_identity, recent_blockhash) is Ok,
        r is Ok ==> Ok::<Transaction, SignerError>(*final(transaction)) == sign_of(
            *old(transaction),
            *payer,
            *mint_identity,
            recent_blockhash,
        ),
        r is Err ==> r->Err_0 == sign_of(
            *old(transaction),
            *payer,
            *mint_identity,
            recent_blockhash,
        )->Err_0,
{
    transaction.try_sign(&[payer, mint_identity], recent_blockhash)
}

/// The two keys that sign one mint transaction: the long-lived payer and the
/// single-use mint identity. The pair lives for one attempt only.
pub struct SigningIdentityPair {
    pub payer: Keypair,
    pub mint_identity: Keypair,
}

/// Why a transaction could not be assembled and signed.
pub enum AssemblyError {
    /// The instructions reference more distinct account keys than one
    /// transaction can carry.
    TooManyAccountKeys,
    /// Signing failed, with the signer error attached.
    Signing(SignerError),
}

/// Generates the fresh single-use mint identity for one attempt and returns
/// it with its own address. Every attempt calls this anew; an identity is
/// never stored or reused.
pub fn new_mint_identity() -> (r: (Keypair, Address))
    ensures
        r.1 == address_of(r.0),
{
    let keypair = generate_keypair();
    let address = keypair_address(&keypair);
    (keypair, address)
}

/// Resolves the fee policy, generates the mint identity and builds the
/// instruction list: everything of one attempt that precedes the network.
/// Fails exactly when the boost flag is set and the override does not parse.
pub fn prepare(args: &MintArgs, payer: Keypair, fee_override: Option<&str>) -> (r: Result<
    (MintAttempt, SigningIdentityPair),
    FeeError,
>)
    ensures
        r is Ok <==> fee_setup_ok(args.boost, override_view(fee_override)),
        r matches Ok(p) ==> {
            &&& p.0.wf()
            &&& p.0.stage is Building
            &&& !p.0.blockhash_obtained
            &&& p.0.sequence_number == args.solmap_number
            &&& p.0.boost == args.boost
            &&& p.0.priority_fee == resolved_fee(args.boost, override_view(fee_override))
            &&& p.1.payer == payer
            &&& p.0.payer == address_of(payer)
            &&& p.0.mint_identity == address_of(p.1.mint_identity)
        },
{
    let (mint_identity, mint_address) = new_mint_identity();
    let payer_address = keypair_address(&payer);
    let attempt = match MintAttempt::begin(args, payer_address, mint_address, fee_override) {
        Ok(a) => a,
        Err(e) => {
            return Err(e);
        },
    };
    Ok((attempt, SigningIdentityPair { payer, mint_identity }))
}

/// The realized instruction list: the compute-unit-limit directive, the
/// price directive when a fee is attached, and last the mint instruction.
pub open spec fn realized_plan(
    priority_fee: Option<u64>,
    mint_instruction: Instruction,
) -> Seq<Instruction> {
    match priority_fee {
        None => seq![limit_ix_of(COMPUTE_UNIT_LIMIT), mint_instruction],
        Some(rate) => seq![
            limit_ix_of(COMPUTE_UNIT_LIMIT),
            price_ix_of(rate),
            mint_instruction,
        ],
    }
}

/// Builds the on-chain instruction list, exactly as `realized_plan` states:
/// the compute-budget directives from the resolved fee, then, last, the
/// mint instruction the caller's instruction constructor produced.
pub fn realize_plan(priority_fee: Option<u64>, mint_instruction: Instruction) -> (r: Vec<
    Instruction,
>)
    ensures
        r@ == realized_plan(priority_fee, mint_instruction),
{
    let mut out: Vec<Instruction> = Vec::new();
    out.push(compute_unit_limit_instruction(COMPUTE_UNIT_LIMIT));
    if let Some(rate) = priority_fee {
        out.push(compute_unit_price_instruction(rate));
    }
    out.push(mint_instruction);
    proof {
        assert(out@ =~= realized_plan(priority_fee, mint_instruction));
    }
    out
}

/// Assembles the transaction for one attempt and signs it in one pass with
/// exactly the pair {payer, mint identity}, bound to the given blockhash.
/// No retry and no signature-completeness check beyond supplying the two
/// required keys; a transaction that cannot be built (too many distinct
/// account keys) or cannot be signed surfaces as a failure.
pub fn assemble_and_sign(
    priority_fee: Option<u64>,
    mint_instruction: Instruction,
    identities: &SigningIdentityPair,
    recent_blockhash: solana_sdk::hash::Hash,
) -> (r: Result<Transaction, AssemblyError>)
    ensures
        r == (match tx_build_of(
            realized_plan(priority_fee, mint_instruction),
            pubkey_of(identities.payer),
        ) {
            None => Err::<Transaction, AssemblyError>(AssemblyError::TooManyAccountKeys),
            Some(unsigned) => match sign_of(
                unsigned,
                identities.payer,
                identities.mint_identity,
                recent_blockhash,
            ) {
                Ok(signed) => Ok::<Transaction, AssemblyError>(signed),
                Err(e) => Err::<Transaction, AssemblyError>(AssemblyError::Signing(e)),
            },
        }),
{
    let instructions = realize_plan(priority_fee, mint_instruction);
    let payer_pubkey = keypair_pubkey(&identities.payer);
    let mut transaction = match new_transaction_with_payer(&instructions, &payer_pubkey) {
        Some(t) => t,
        None => {
            return Err(AssemblyError::TooManyAccountKeys);
        },
    };
    match try_sign_transaction(
        &mut transaction,
        &identities.payer,
        &identities.mint_identity,
        recent_blockhash,
    ) {
        Ok(()) => Ok(transaction),
        Err(e) => Err(AssemblyError::Signing(e)),
    }
}

} // verus!
