use vstd::prelude::*;
use crate::address::Address;
use crate::deployment::EditionsDeployment;
use crate::errors::EditionsError;
use crate::hashlist::Hashlist;
use crate::mint_engine::{derive_delegate, expected_delegate, mint, mint_result};

verus! {

/// One sale phase: a price, an optional time window, an optional
/// per-wallet cap, an optional global cap, and its running total.
#[derive(Clone, Copy)]
pub struct Phase {
    /// What one mint in this phase costs the payer.
    pub price_amount: u64,
    /// When the phase opens; an absent bound leaves it open-ended.
    pub start_time: Option<i64>,
    /// When the phase closes; an absent bound leaves it open-ended.
    pub end_time: Option<i64>,
    /// At most this many mints per minter in this phase, if bounded.
    pub max_mints_per_wallet: Option<u64>,
    /// At most this many mints in this phase altogether, if bounded.
    pub max_mints_total: Option<u64>,
    /// How many mints this phase has accepted so far.
    pub current_mints: u64,
}

impl Phase {
    /// The phase's invariant: its running total respects its own cap.
    pub open spec fn wf(&self) -> bool {
        match self.max_mints_total {
            Some(cap) => self.current_mints <= cap,
            None => true,
        }
    }
}

/// The controls record of a deployment: its ordered sale phases and the
/// treasury every payment flows to.
pub struct EditionsControls {
    pub phases: Vec<Phase>,
    pub treasury: Address,
}

impl EditionsControls {
    /// The record's invariant: every phase respects its own cap.
    pub open spec fn wf(&self) -> bool {
        &&& forall|i: int| 0 <= i < self.phases@.len() ==> (#[trigger] self.phases@[i]).wf()
        &&& self.treasury.wf()
    }
}

/// A per-minter counter record: either the minter's global count of
/// accepted mints, or the count within one phase. Zero-initialized when
/// first created, monotonically non-decreasing afterwards.
pub struct MinterStats {
    pub mint_count: u64,
}

/// What a caller supplies with a purchase: the index of the phase to
/// mint under.
pub struct MintInput {
    pub phase_index: u32,
}

/// Whether `count` still lies strictly below an optional cap.
pub open spec fn below_opt_cap(count: u64, cap: Option<u64>) -> bool {
    match cap {
        Some(c) => count < c,
        None => true,
    }
}

/// Whether `now` lies inside the phase's (possibly open-ended) window.
pub open spec fn phase_active(phase: Phase, now: i64) -> bool {
    &&& match phase.start_time {
        Some(s) => now >= s,
        None => true,
    }
    &&& match phase.end_time {
        Some(e) => now <= e,
        None => true,
    }
}

/// What the phase constraint check decides, in order: the time window,
/// then eligibility, then the per-wallet cap, then the phase's global cap.
/// `wallet_count` is the minter's count within this phase as of the start
/// of the operation.
pub open spec fn phase_check(phase: Phase, wallet_count: u64, now: i64, eligible: bool) -> Result<
    (),
    EditionsError,
> {
    if !phase_active(phase, now) {
        Err(EditionsError::PhaseNotActive)
    } else if !eligible {
        Err(EditionsError::NotEligible)
    } else if !below_opt_cap(wallet_count, phase.max_mints_per_wallet) {
        Err(EditionsError::WalletCapExceeded)
    } else if !below_opt_cap(phase.current_mints, phase.max_mints_total) {
        Err(EditionsError::PhaseCapExceeded)
    } else {
        Ok(())
    }
}

/// Validate a minter's eligibility to mint in a phase right now, against
/// counter state as of the start of the operation. Mutates nothing.
/// `eligible` is the verdict of the external allow-list oracle; an open
/// phase passes `true`.
pub fn check_phase_constraints(
    phase: &Phase,
    minter_stats: &MinterStats,
    minter_stats_phase: &MinterStats,
    now: i64,
    eligible: bool,
) -> (r: Result<(), EditionsError>)
    ensures
        r == phase_check(*phase, minter_stats_phase.mint_count, now, eligible),
{
    let active = match phase.start_time {
        Some(s) => now >= s,
        None => true,
    } && match phase.end_time {
        Some(e) => now <= e,
        None => true,
    };
    if !active {
        return Err(EditionsError::PhaseNotActive);
    }
    if !eligible {
        return Err(EditionsError::NotEligible);
    }
    match phase.max_mints_per_wallet {
        Some(cap) => {
            if minter_stats_phase.mint_count >= cap {
                return Err(EditionsError::WalletCapExceeded);
            }
        },
        None => (),
    }
    match phase.max_mints_total {
        Some(cap) => {
            if phase.current_mints >= cap {
                return Err(EditionsError::PhaseCapExceeded);
            }
        },
        None => (),
    }
    Ok(())
}

/// The mutable state one purchase touches: the deployment and its ledger,
/// the controls record, the two counter records for the minter, and the
/// two balances the payment moves between.
pub struct MintWithControlsCtx {
    pub editions_deployment: EditionsDeployment,
    pub editions_controls: EditionsControls,
    pub hashlist: Hashlist,
    pub minter_stats: MinterStats,
    pub minter_stats_phase: MinterStats,
    /// The payer's spendable balance.
    pub payer_balance: u64,
    /// The balance of the treasury the controls record designates.
    pub treasury_balance: u64,
}

impl MintWithControlsCtx {
    pub open spec fn wf(&self) -> bool {
        &&& self.editions_deployment.wf()
        &&& self.editions_controls.wf()
        &&& self.hashlist.wf()
    }
}

/// A phase after accepting one more mint.
pub open spec fn bump_phase(phase: Phase) -> Phase {
    Phase { current_mints: (phase.current_mints + 1) as u64, ..phase }
}

/// What one phase-gated purchase decides, in order: the deployment's
/// cosigning policy, the phase index, the phase constraints, the payer's
/// funds, and finally the core mint step under the delegated handle the
/// controls record derives for itself.
pub open spec fn controls_result(
    ctx: MintWithControlsCtx,
    signer: Seq<u8>,
    token_id: Seq<u8>,
    phase_index: u32,
    now: i64,
    eligible: bool,
    editions_program: Seq<u8>,
    controls_program: Seq<u8>,
) -> Result<(), EditionsError> {
    let deployment = ctx.editions_deployment;
    if deployment.require_creator_cosign() && signer != deployment.creator@ {
        Err(EditionsError::Unauthorized)
    } else if phase_index >= ctx.editions_controls.phases@.len() {
        Err(EditionsError::InvalidPhaseIndex)
    } else {
        let phase = ctx.editions_controls.phases@[phase_index as int];
        match phase_check(phase, ctx.minter_stats_phase.mint_count, now, eligible) {
            Err(e) => Err(e),
            Ok(_) => if ctx.payer_balance < phase.price_amount {
                Err(EditionsError::InsufficientFunds)
            } else {
                mint_result(
                    editions_program,
                    controls_program,
                    deployment,
                    ctx.hashlist@,
                    expected_delegate(editions_program, controls_program, deployment),
                    token_id,
                )
            },
        }
    }
}

/// How the state after an accepted purchase relates to the state before
/// it: the payment has moved, the token is issued and recorded, and every
/// counter the purchase touches has risen by exactly one. Everything else
/// is unchanged.
pub open spec fn controls_commit(
    pre: MintWithControlsCtx,
    post: MintWithControlsCtx,
    token_id: Seq<u8>,
    phase_index: int,
) -> bool {
    let phase = pre.editions_controls.phases@[phase_index];
    &&& post.editions_deployment == (EditionsDeployment {
        number_of_tokens_issued: (pre.editions_deployment.number_of_tokens_issued + 1) as u64,
        ..pre.editions_deployment
    })
    &&& post.hashlist@ == pre.hashlist@.push(token_id)
    &&& !pre.hashlist@.contains(token_id)
    &&& post.editions_controls.phases@ == pre.editions_controls.phases@.update(
        phase_index,
        bump_phase(phase),
    )
    &&& post.editions_controls.treasury == pre.editions_controls.treasury
    &&& post.minter_stats.mint_count == pre.minter_stats.mint_count + 1
    &&& post.minter_stats_phase.mint_count == pre.minter_stats_phase.mint_count + 1
    &&& post.payer_balance == pre.payer_balance - phase.price_amount
    &&& post.treasury_balance == pre.treasury_balance + phase.price_amount
}

/// Whether the minter's counter for a phase respects that phase's
/// per-wallet cap.
pub open spec fn wallet_cap_respected(ctx: MintWithControlsCtx, phase_index: int) -> bool {
    match ctx.editions_controls.phases@[phase_index].max_mints_per_wallet {
        Some(cap) => ctx.minter_stats_phase.mint_count <= cap,
        None => true,
    }
}

/// One phase-gated purchase, as one atomic unit.
///
/// Eligibility, caps, funds and the mint preconditions are all checked
/// against state as of the start of the operation; only when every check
/// passes does any state change. On success the payment has moved to the
/// treasury, the token is issued (ledger entry, issued counter), and the
/// minter's counters and the phase's running total have each risen by
/// one. On any failure every record and both balances are exactly as
/// before: no partial effect is observable, and no funds are lost to a
/// failed attempt.
///
/// The payer and minter identities key the records the substrate supplies
/// in `ctx`: `payer_balance` is the payer's, and the two counter records
/// the minter's. The `signer` is whoever cosigns the purchase, which a
/// deployment with a cosigning policy requires to be its creator.
pub fn mint_with_controls(
    ctx: &mut MintWithControlsCtx,
    payer: &Address,
    signer: &Address,
    minter: &Address,
    token_id: &Address,
    mint_input: &MintInput,
    now: i64,
    eligible: bool,
    editions_program: &Address,
    controls_program: &Address,
) -> (r: Result<(), EditionsError>)
    requires
        old(ctx).wf(),
        editions_program.wf(),
        controls_program.wf(),
        old(ctx).minter_stats.mint_count < u64::MAX,
        old(ctx).minter_stats_phase.mint_count < u64::MAX,
        (mint_input.phase_index as int) < old(ctx).editions_controls.phases@.len() ==> (old(
            ctx,
        ).editions_controls.phases@[mint_input.phase_index as int].current_mints < u64::MAX && old(
            ctx,
        ).treasury_balance + old(
            ctx,
        ).editions_controls.phases@[mint_input.phase_index as int].price_amount <= u64::MAX),
    ensures
        final(ctx).wf(),
        r == controls_result(
            *old(ctx),
            signer@,
            token_id@,
            mint_input.phase_index,
            now,
            eligible,
            editions_program@,
            controls_program@,
        ),
        r is Err ==> *final(ctx) == *old(ctx),
        r is Ok ==> controls_commit(
            *old(ctx),
            *final(ctx),
            token_id@,
            mint_input.phase_index as int,
        ),
        r is Ok ==> wallet_cap_respected(*final(ctx), mint_input.phase_index as int),
{
    let sentinel = Address::sentinel();
    if !crate::address::addr_eq(&ctx.editions_deployment.cosigner_program_id, &sentinel)
        && !crate::address::addr_eq(signer, &ctx.editions_deployment.creator) {
        return Err(EditionsError::Unauthorized);
    }
    let phase_index: usize = mint_input.phase_index as usize;
    if phase_index >= ctx.editions_controls.phases.len() {
        return Err(EditionsError::InvalidPhaseIndex);
    }
    let phase: Phase = ctx.editions_controls.phases[phase_index];
    match check_phase_constraints(&phase, &ctx.minter_stats, &ctx.minter_stats_phase, now, eligible)
    {
        Ok(_) => (),
        Err(e) => {
            return Err(e);
        },
    }
    if ctx.payer_balance < phase.price_amount {
        return Err(EditionsError::InsufficientFunds);
    }
    // The remaining mint preconditions, still before any mutation.
    if ctx.editions_deployment.number_of_tokens_issued
        == ctx.editions_deployment.max_number_of_tokens {
        return Err(EditionsError::MintLimitExceeded);
    }
    if ctx.hashlist.contains(token_id) {
        return Err(EditionsError::DuplicateToken);
    }
    // Every check passed: commit the whole unit.
    ctx.payer_balance = ctx.payer_balance - phase.price_amount;
    ctx.treasury_balance = ctx.treasury_balance + phase.price_amount;
    let delegate = derive_delegate(editions_program, controls_program, &ctx.editions_deployment);
    let minted = mint(
        editions_program,
        controls_program,
        &mut ctx.editions_deployment,
        &mut ctx.hashlist,
        &delegate,
        token_id,
    );
    match minted {
        Ok(_) => (),
        Err(_) => {
            return vstd::pervasive::unreached();
        },
    }
    ctx.minter_stats.mint_count = ctx.minter_stats.mint_count + 1;
    ctx.minter_stats_phase.mint_count = ctx.minter_stats_phase.mint_count + 1;
    let mut bumped: Phase = phase;
    bumped.current_mints = bumped.current_mints + 1;
    ctx.editions_controls.phases[phase_index] = bumped;
    Ok(())
}

/// Law: the per-minter-per-phase counter never exceeds the wallet cap. An
/// attempt by a minter who has reached the cap of an otherwise open phase
/// always fails with `WalletCapExceeded`, and an accepted attempt starts
/// strictly below the cap, so counting it still respects the cap.
pub proof fn lemma_wallet_cap(phase: Phase, wallet_count: u64, now: i64, eligible: bool)
    ensures
        phase_check(phase, wallet_count, now, eligible) is Ok ==> below_opt_cap(
            wallet_count,
            phase.max_mints_per_wallet,
        ),
        phase_active(phase, now) && eligible && (match phase.max_mints_per_wallet {
            Some(cap) => wallet_count >= cap,
            None => false,
        }) ==> phase_check(phase, wallet_count, now, eligible) == Err::<(), EditionsError>(
            EditionsError::WalletCapExceeded,
        ),
{
}

} // verus!
