//! One mint attempt, stepped through its states: building, signed,
//! submitted, and confirmed or failed. Each attempt owns its own freshly
//! generated mint identity and its own blockhash; nothing is shared or
//! reused across attempts.

use vstd::prelude::*;

use crate::fee::fee_override_valid;
use crate::fee::resolve_priority_fee;
use crate::fee::resolved_fee;
use crate::fee::FeeError;
use crate::instructions::build_instructions;
use crate::instructions::instruction_plan;
use crate::instructions::Address;
use crate::instructions::SolmapInstruction;
use crate::instructions::COMPUTE_UNIT_LIMIT;

verus! {

#[verifier::external_type_specification]
#[verifier::external_body]
pub struct ExPathBuf(std::path::PathBuf);

/// Caller-supplied arguments for one mint invocation. The key-file path and
/// endpoint are handed through to the configuration loader; the pipeline's
/// own decisions read only the number and the boost flag.
pub struct MintArgs {
    pub keypair_path: Option<std::path::PathBuf>,
    pub rpc_url: Option<String>,
    pub solmap_number: u64,
    pub boost: bool,
}

/// Where a mint attempt stands.
#[derive(Clone, Copy, Debug, PartialEq, Eq)]
pub enum MintStage {
    /// Instructions are built; no blockhash has been fetched yet.
    Building,
    /// The transaction is bound to a blockhash and fully signed.
    Signed,
    /// The transaction has been sent; confirmation is pending.
    Submitted,
    /// The network confirmed the transaction. Terminal.
    Confirmed,
    /// The attempt failed. Terminal; a retry starts over with a fresh
    /// mint identity.
    Failed,
}

/// Why a mint attempt failed.
#[derive(Clone, Copy, Debug, PartialEq, Eq)]
pub enum FailureCause {
    /// The fee-rate override did not parse.
    InvalidFeeOverride,
    /// The latest blockhash could not be fetched.
    BlockhashUnavailable,
    /// Signing failed or the network rejected the transaction.
    SubmissionFailed,
}

/// What the caller is to do next for an attempt.
#[derive(Clone, Copy, Debug, PartialEq, Eq)]
pub enum MintAction {
    FetchBlockhash,
    SubmitTransaction,
    AwaitConfirmation,
    ReportSuccess,
    ReportFailure,
}

/// The view of an optional override string.
pub open spec fn override_view(fee_override: Option<&str>) -> Option<Seq<char>> {
    match fee_override {
        None => None,
        Some(s) => Some(s@),
    }
}

/// Whether the fee policy can be resolved: always without the boost flag,
/// and with it exactly when any override present is a valid rate.
pub open spec fn fee_setup_ok(boost: bool, fee_override: Option<Seq<char>>) -> bool {
    boost ==> match fee_override {
        None => true,
        Some(s) => fee_override_valid(s),
    }
}

/// One mint attempt.
pub struct MintAttempt {
    /// Which solmap is being minted.
    pub sequence_number: u64,
    /// Whether a priority fee is attached.
    pub boost: bool,
    /// The long-lived funding and authorizing address.
    pub payer: Address,
    /// The freshly generated single-use address of the new token.
    pub mint_identity: Address,
    /// The resolved compute-unit price; present exactly when boosted.
    pub priority_fee: Option<u64>,
    /// The ordered instruction list; never reordered once built.
    pub instructions: Vec<SolmapInstruction>,
    /// Where the attempt stands.
    pub stage: MintStage,
    /// Whether a blockhash was ever fetched for this attempt.
    pub blockhash_obtained: bool,
    /// The recorded cause once the attempt has failed.
    pub failure: Option<FailureCause>,
}

impl MintAttempt {
    /// Well-formedness: the instruction list is exactly the plan for the
    /// attempt's own fields, a fee is attached exactly when boosted, a cause
    /// is recorded exactly when failed, and every stage at or past signing
    /// has a blockhash.
    pub open spec fn wf(self) -> bool {
        &&& self.instructions@ == instruction_plan(
            self.payer,
            self.mint_identity,
            self.sequence_number,
            self.priority_fee,
        )
        &&& (self.boost <==> self.priority_fee is Some)
        &&& (self.stage is Failed <==> self.failure is Some)
        &&& ((self.stage is Signed || self.stage is Submitted || self.stage is Confirmed)
            ==> self.blockhash_obtained)
    }

    /// The one action the strictly sequential pipeline takes next.
    pub open spec fn spec_next_action(self) -> MintAction {
        match self.stage {
            MintStage::Building => MintAction::FetchBlockhash,
            MintStage::Signed => MintAction::SubmitTransaction,
            MintStage::Submitted => MintAction::AwaitConfirmation,
            MintStage::Confirmed => MintAction::ReportSuccess,
            MintStage::Failed => MintAction::ReportFailure,
        }
    }

    /// Resolves the fee policy and builds the instruction list for a fresh
    /// attempt. Fails exactly when the boost flag is set and the override
    /// does not parse; no instruction is built in that case.
    pub fn begin(
        args: &MintArgs,
        payer: Address,
        mint_identity: Address,
        fee_override: Option<&str>,
    ) -> (r: Result<MintAttempt, FeeError>)
        ensures
            r is Ok <==> fee_setup_ok(args.boost, override_view(fee_override)),
            r is Err ==> r == Err::<MintAttempt, FeeError>(FeeError::InvalidPriorityFeeRate),
            r matches Ok(a) ==> {
                &&& a.wf()
                &&& a.stage is Building
                &&& !a.blockhash_obtained
                &&& a.failure is None
                &&& a.sequence_number == args.solmap_number
                &&& a.boost == args.boost
                &&& a.payer == payer
                &&& a.mint_identity == mint_identity
                &&& a.priority_fee == resolved_fee(args.boost, override_view(fee_override))
            },
    {
        let priority_fee = match resolve_priority_fee(args.boost, fee_override) {
            Ok(f) => f,
            Err(e) => {
                return Err(e);
            },
        };
        let instructions = build_instructions(
            payer,
            mint_identity,
            args.solmap_number,
            priority_fee,
        );
        Ok(
            MintAttempt {
                sequence_number: args.solmap_number,
                boost: args.boost,
                payer,
                mint_identity,
                priority_fee,
                instructions,
                stage: MintStage::Building,
                blockhash_obtained: false,
                failure: None,
            },
        )
    }

    /// The one action to take next.
    pub fn next_action(&self) -> (a: MintAction)
        ensures
            a == self.spec_next_action(),
    {
        match self.stage {
            MintStage::Building => MintAction::FetchBlockhash,
            MintStage::Signed => MintAction::SubmitTransaction,
            MintStage::Submitted => MintAction::AwaitConfirmation,
            MintStage::Confirmed => MintAction::ReportSuccess,
            MintStage::Failed => MintAction::ReportFailure,
        }
    }

    /// Records that this attempt's blockhash was fetched and the transaction
    /// bound to it was signed by the payer and the mint identity.
    pub fn record_signed(&mut self)
        requires
            old(self).wf(),
            old(self).stage is Building,
        ensures
            final(self).wf(),
            *final(self) == (MintAttempt {
                stage: MintStage::Signed,
                blockhash_obtained: true,
                ..*old(self)
            }),
    {
        self.stage = MintStage::Signed;
        self.blockhash_obtained = true;
    }

    /// Records that the signed transaction was sent to the network.
    pub fn record_submitted(&mut self)
        requires
            old(self).wf(),
            old(self).stage is Signed,
        ensures
            final(self).wf(),
            *final(self) == (MintAttempt { stage: MintStage::Submitted, ..*old(self) }),
    {
        self.stage = MintStage::Submitted;
    }

    /// Records that the network confirmed the transaction. Terminal.
    pub fn record_confirmed(&mut self)
        requires
            old(self).wf(),
            old(self).stage is Submitted,
        ensures
            final(self).wf(),
            *final(self) == (MintAttempt { stage: MintStage::Confirmed, ..*old(self) }),
    {
        self.stage = MintStage::Confirmed;
    }

    /// Records a failure with its cause. Terminal: a later attempt starts
    /// over from building, with a freshly generated mint identity.
    pub fn record_failure(&mut self, cause: FailureCause)
        requires
            old(self).wf(),
            !(old(self).stage is Confirmed),
            !(old(self).stage is Failed),
        ensures
            final(self).wf(),
            *final(self) == (MintAttempt {
                stage: MintStage::Failed,
                failure: Some(cause),
                ..*old(self)
            }),
    {
        self.stage = MintStage::Failed;
        self.failure = Some(cause);
    }
}

/// Law: every well-formed attempt's instruction list starts with the
/// compute-unit-limit directive and ends with the mint directive carrying
/// the attempt's own payer, mint identity and sequence number.
pub proof fn lemma_instruction_order(a: MintAttempt)
    requires
        a.wf(),
    ensures
        a.instructions@.len() >= 2,
        a.instructions@.first() == (SolmapInstruction::ComputeUnitLimit {
            units: COMPUTE_UNIT_LIMIT,
        }),
        a.instructions@.last() == (SolmapInstruction::MintSolmap {
            payer: a.payer,
            mint_identity: a.mint_identity,
            solmap_number: a.sequence_number,
        }),
{
}

/// Law: without the boost flag no compute-unit-price directive is present;
/// with it exactly one is, strictly before the final mint directive.
pub proof fn lemma_boost_controls_price(a: MintAttempt)
    requires
        a.wf(),
    ensures
        !a.boost ==> a.instructions@.len() == 2 && (forall|i: int|
            0 <= i < a.instructions@.len() ==> !(#[trigger] a.instructions@[i]
                is ComputeUnitPrice)),
        a.boost ==> {
            &&& a.instructions@.len() == 3
            &&& a.instructions@[1] == (SolmapInstruction::ComputeUnitPrice {
                micro_lamports: a.priority_fee->0,
            })
            &&& !(a.instructions@[0] is ComputeUnitPrice)
            &&& !(a.instructions@[2] is ComputeUnitPrice)
            &&& a.instructions@[2] is MintSolmap
        },
{
}

/// Law: an attempt that never obtained a blockhash is never directed to
/// submit; submission happens only after a blockhash was fetched.
pub proof fn lemma_no_submission_without_blockhash(a: MintAttempt)
    requires
        a.wf(),
        !a.blockhash_obtained,
    ensures
        a.spec_next_action() != MintAction::SubmitTransaction,
        !(a.stage is Submitted),
{
}

} // verus!
