use solana_sdk::instruction::AccountMeta;
use solana_sdk::instruction::Instruction;
use solana_sdk::pubkey::Pubkey;
use solana_sdk::signature::Keypair;
use solana_sdk::signer::Signer;

use solmap_mint::fee::resolve_priority_fee;
use solmap_mint::fee::sol_amount_string;
use solmap_mint::fee::FeeError;
use solmap_mint::fee::DEFAULT_PRIORITY_FEE_RATE;
use solmap_mint::instructions::build_instructions;
use solmap_mint::instructions::Address;
use solmap_mint::instructions::SolmapInstruction;
use solmap_mint::instructions::COMPUTE_UNIT_LIMIT;
use solmap_mint::ledger::assemble_and_sign;
use solmap_mint::ledger::AssemblyError;
use solmap_mint::ledger::new_mint_identity;
use solmap_mint::ledger::prepare;
use solmap_mint::ledger::realize_plan;
use solmap_mint::ledger::SigningIdentityPair;
use solmap_mint::numerals::parse_u64_decimal;
use solmap_mint::numerals::u64_to_dec_string;
use solmap_mint::pipeline::FailureCause;
use solmap_mint::pipeline::MintAction;
use solmap_mint::pipeline::MintArgs;
use solmap_mint::pipeline::MintAttempt;
use solmap_mint::pipeline::MintStage;
use solmap_mint::report::fee_message;
use solmap_mint::report::minting_message;
use solmap_mint::report::success_message;

fn plain_args(solmap_number: u64, boost: bool) -> MintArgs {
    MintArgs { keypair_path: None, rpc_url: None, solmap_number, boost }
}

fn addr(fill: u8) -> Address {
    Address { bytes: [fill; 32] }
}

#[test]
fn decimal_rendering_exact() {
    assert_eq!(u64_to_dec_string(0), "0");
    assert_eq!(u64_to_dec_string(7), "7");
    assert_eq!(u64_to_dec_string(42), "42");
    assert_eq!(u64_to_dec_string(400_000), "400000");
    assert_eq!(u64_to_dec_string(u64::MAX), "18446744073709551615");
}

#[test]
fn decimal_parsing_exact() {
    assert_eq!(parse_u64_decimal("250000"), Some(250_000));
    assert_eq!(parse_u64_decimal("0"), Some(0));
    assert_eq!(parse_u64_decimal("18446744073709551615"), Some(u64::MAX));
    assert_eq!(parse_u64_decimal("18446744073709551616"), None);
    assert_eq!(parse_u64_decimal(""), None);
    assert_eq!(parse_u64_decimal("abc"), None);
    assert_eq!(parse_u64_decimal("12a"), None);
    assert_eq!(parse_u64_decimal("-5"), None);
}

#[test]
fn decimal_parsing_accepts_one_leading_plus() {
    assert_eq!(parse_u64_decimal("+250000"), Some(250_000));
    assert_eq!(parse_u64_decimal("+0"), Some(0));
    assert_eq!(parse_u64_decimal("+18446744073709551615"), Some(u64::MAX));
    assert_eq!(parse_u64_decimal("+18446744073709551616"), None);
    assert_eq!(parse_u64_decimal("+"), None);
    assert_eq!(parse_u64_decimal("++1"), None);
    assert_eq!(parse_u64_decimal("1+2"), None);
}

#[test]
fn fee_resolution_uses_default_without_override() {
    assert_eq!(resolve_priority_fee(true, None), Ok(Some(DEFAULT_PRIORITY_FEE_RATE)));
}

#[test]
fn fee_resolution_honors_override() {
    assert_eq!(resolve_priority_fee(true, Some("250000")), Ok(Some(250_000)));
}

#[test]
fn fee_resolution_accepts_plus_prefixed_override() {
    assert_eq!(resolve_priority_fee(true, Some("+250000")), Ok(Some(250_000)));
}

#[test]
fn fee_resolution_rejects_malformed_override() {
    assert_eq!(
        resolve_priority_fee(true, Some("abc")),
        Err(FeeError::InvalidPriorityFeeRate)
    );
    assert_eq!(
        resolve_priority_fee(true, Some("99999999999999999999999")),
        Err(FeeError::InvalidPriorityFeeRate)
    );
}

#[test]
fn fee_resolution_without_boost_ignores_override() {
    assert_eq!(resolve_priority_fee(false, None), Ok(None));
    assert_eq!(resolve_priority_fee(false, Some("abc")), Ok(None));
}

#[test]
fn sol_amounts_render_as_fractional_units() {
    assert_eq!(sol_amount_string(DEFAULT_PRIORITY_FEE_RATE), "0.0005");
    assert_eq!(sol_amount_string(0), "0");
    assert_eq!(sol_amount_string(1), "0.000000001");
    assert_eq!(sol_amount_string(250_000), "0.00025");
    assert_eq!(sol_amount_string(1_000_000_000), "1");
    assert_eq!(sol_amount_string(1_500_000_000), "1.5");
    assert_eq!(sol_amount_string(123_456_789_012), "123.456789012");
}

#[test]
fn report_lines_match_console_format() {
    assert_eq!(minting_message(42), "Minting solmap number 42");
    assert_eq!(
        fee_message(DEFAULT_PRIORITY_FEE_RATE),
        "Priority fee 0.0005 SOL"
    );
    assert_eq!(
        success_message(42, "5VERYrealSIGNATURE"),
        "Minted solmap number 42 with signature 5VERYrealSIGNATURE"
    );
}

#[test]
fn unboosted_plan_is_limit_then_mint() {
    let payer = addr(1);
    let mint = addr(2);
    let plan = build_instructions(payer, mint, 42, None);
    assert_eq!(plan.len(), 2);
    assert_eq!(
        plan[0],
        SolmapInstruction::ComputeUnitLimit { units: COMPUTE_UNIT_LIMIT }
    );
    assert_eq!(
        plan[1],
        SolmapInstruction::MintSolmap { payer, mint_identity: mint, solmap_number: 42 }
    );
}

#[test]
fn boosted_plan_adds_one_price_before_mint() {
    let payer = addr(3);
    let mint = addr(4);
    let plan = build_instructions(payer, mint, 7, Some(DEFAULT_PRIORITY_FEE_RATE));
    assert_eq!(plan.len(), 3);
    assert_eq!(
        plan[0],
        SolmapInstruction::ComputeUnitLimit { units: COMPUTE_UNIT_LIMIT }
    );
    assert_eq!(
        plan[1],
        SolmapInstruction::ComputeUnitPrice { micro_lamports: DEFAULT_PRIORITY_FEE_RATE }
    );
    assert_eq!(
        plan[2],
        SolmapInstruction::MintSolmap { payer, mint_identity: mint, solmap_number: 7 }
    );
}

#[test]
fn malformed_override_stops_before_instructions() {
    let args = plain_args(42, true);
    let r = MintAttempt::begin(&args, addr(1), addr(2), Some("abc"));
    assert!(matches!(r, Err(FeeError::InvalidPriorityFeeRate)));
}

#[test]
fn attempt_walks_the_stages_in_order() {
    let args = plain_args(42, false);
    let mut attempt = MintAttempt::begin(&args, addr(1), addr(2), None).unwrap();
    assert_eq!(attempt.stage, MintStage::Building);
    assert_eq!(attempt.next_action(), MintAction::FetchBlockhash);
    attempt.record_signed();
    assert_eq!(attempt.stage, MintStage::Signed);
    assert_eq!(attempt.next_action(), MintAction::SubmitTransaction);
    attempt.record_submitted();
    assert_eq!(attempt.next_action(), MintAction::AwaitConfirmation);
    attempt.record_confirmed();
    assert_eq!(attempt.stage, MintStage::Confirmed);
    assert_eq!(attempt.next_action(), MintAction::ReportSuccess);
}

#[test]
fn blockhash_failure_blocks_submission() {
    let args = plain_args(42, false);
    let mut attempt = MintAttempt::begin(&args, addr(1), addr(2), None).unwrap();
    attempt.record_failure(FailureCause::BlockhashUnavailable);
    assert_eq!(attempt.stage, MintStage::Failed);
    assert_eq!(attempt.failure, Some(FailureCause::BlockhashUnavailable));
    assert_ne!(attempt.next_action(), MintAction::SubmitTransaction);
    assert_eq!(attempt.next_action(), MintAction::ReportFailure);
}

#[test]
fn boosted_attempt_carries_default_fee_when_override_unset() {
    let args = plain_args(7, true);
    let attempt = MintAttempt::begin(&args, addr(1), addr(2), None).unwrap();
    assert_eq!(attempt.priority_fee, Some(DEFAULT_PRIORITY_FEE_RATE));
    assert_eq!(attempt.instructions.len(), 3);
}

#[test]
fn each_attempt_generates_a_distinct_mint_identity() {
    let (kp1, a1) = new_mint_identity();
    let (kp2, a2) = new_mint_identity();
    assert_ne!(a1, a2);
    assert_ne!(kp1.pubkey(), kp2.pubkey());
    assert_eq!(a1.bytes, kp1.pubkey().to_bytes());
}

#[test]
fn sequential_prepares_for_same_number_never_reuse_a_key() {
    let args = plain_args(42, false);
    let (attempt1, ids1) = prepare(&args, Keypair::new(), None).unwrap();
    let (attempt2, ids2) = prepare(&args, Keypair::new(), None).unwrap();
    assert_eq!(attempt1.sequence_number, attempt2.sequence_number);
    assert_ne!(attempt1.mint_identity, attempt2.mint_identity);
    assert_ne!(ids1.mint_identity.pubkey(), ids2.mint_identity.pubkey());
}

#[test]
fn realized_instructions_use_the_real_compute_budget_directives() {
    let program = Pubkey::new_unique();
    let mint_ix = Instruction::new_with_bytes(program, &[9, 9, 9], vec![]);
    let plain = realize_plan(None, mint_ix.clone());
    assert_eq!(plain.len(), 2);
    assert_eq!(
        plain[0],
        solana_sdk::compute_budget::ComputeBudgetInstruction::set_compute_unit_limit(400_000)
    );
    assert_eq!(plain[1], mint_ix);

    let boosted = realize_plan(Some(250_000), mint_ix.clone());
    assert_eq!(boosted.len(), 3);
    assert_eq!(
        boosted[1],
        solana_sdk::compute_budget::ComputeBudgetInstruction::set_compute_unit_price(250_000)
    );
    assert_eq!(boosted[2], mint_ix);
}

#[test]
fn assembled_transaction_is_signed_by_payer_and_mint_identity() {
    let args = plain_args(42, false);
    let (attempt, identities) = prepare(&args, Keypair::new(), None).unwrap();
    let payer_pk = identities.payer.pubkey();
    let mint_pk = identities.mint_identity.pubkey();
    let program = Pubkey::new_unique();
    let mint_ix = Instruction::new_with_bytes(
        program,
        &attempt.sequence_number.to_le_bytes(),
        vec![AccountMeta::new(payer_pk, true), AccountMeta::new(mint_pk, true)],
    );
    let blockhash = solana_sdk::hash::Hash::new_unique();
    let transaction = match assemble_and_sign(attempt.priority_fee, mint_ix, &identities, blockhash)
    {
        Ok(t) => t,
        Err(_) => panic!("signing failed"),
    };
    assert_eq!(transaction.message.recent_blockhash, blockhash);
    assert_eq!(transaction.signatures.len(), 2);
    assert!(transaction.is_signed());
    assert_eq!(transaction.message.account_keys[0], payer_pk);
}

#[test]
fn rendering_and_parsing_round_trip() {
    for n in [0u64, 7, 42, 999_999_999, u64::MAX] {
        assert_eq!(parse_u64_decimal(&u64_to_dec_string(n)), Some(n));
    }
}

#[test]
fn unboosted_attempt_ignores_malformed_override() {
    let args = plain_args(42, false);
    let attempt = MintAttempt::begin(&args, addr(1), addr(2), Some("abc")).unwrap();
    assert_eq!(attempt.priority_fee, None);
    assert_eq!(attempt.instructions.len(), 2);
}

#[test]
fn prepared_pair_keeps_the_callers_payer() {
    let payer = Keypair::new();
    let payer_pk = payer.pubkey();
    let args = plain_args(42, false);
    let (_, identities) = prepare(&args, payer, None).unwrap();
    assert_eq!(identities.payer.pubkey(), payer_pk);
}

#[test]
fn oversized_mint_instruction_fails_assembly_instead_of_panicking() {
    let args = plain_args(42, false);
    let (attempt, identities) = prepare(&args, Keypair::new(), None).unwrap();
    let program = Pubkey::new_unique();
    let metas: Vec<AccountMeta> = (0..300)
        .map(|_| AccountMeta::new_readonly(Pubkey::new_unique(), false))
        .collect();
    let mint_ix = Instruction::new_with_bytes(program, &[1], metas);
    let blockhash = solana_sdk::hash::Hash::new_unique();
    let r = assemble_and_sign(attempt.priority_fee, mint_ix, &identities, blockhash);
    assert!(matches!(r, Err(AssemblyError::TooManyAccountKeys)));
}

#[test]
fn assembly_is_deterministic_in_its_inputs() {
    let payer = Keypair::new_from_array([7u8; 32]);
    let mint = Keypair::new_from_array([9u8; 32]);
    let payer_pk = payer.pubkey();
    let mint_pk = mint.pubkey();
    let identities = SigningIdentityPair { payer, mint_identity: mint };
    let program = Pubkey::new_from_array([3u8; 32]);
    let mint_ix = Instruction::new_with_bytes(
        program,
        &[1, 2, 3],
        vec![AccountMeta::new(payer_pk, true), AccountMeta::new(mint_pk, true)],
    );
    let blockhash = solana_sdk::hash::Hash::new_from_array([5u8; 32]);
    let first = assemble_and_sign(None, mint_ix.clone(), &identities, blockhash);
    let second = assemble_and_sign(None, mint_ix, &identities, blockhash);
    match (first, second) {
        (Ok(a), Ok(b)) => assert_eq!(a, b),
        _ => panic!("assembly failed"),
    }
}
