//! Properties of the proposal life cycle that hold across operations.

use vstd::prelude::*;

use crate::error::OracleError;
use crate::instructions::{
    dispute_rejection, disputed_proposal, oracle_after_propose, oracle_after_resolve,
    propose_rejection, resolve_rejection, resolved_proposal, withdrawal,
};
use crate::state::{Address, Event, Oracle, Proposal};

verus! {

/// A proposal is resolved at most once. After one accepted resolution, every
/// further resolve attempt is rejected, and once the window has closed it is
/// rejected with `AlreadyResolved`, whoever the caller and whatever the
/// outcome asked for. A later dispute does not clear the flag either.
pub proof fn lemma_resolve_at_most_once(
    oracle: Oracle,
    proposal: Proposal,
    caller: Address,
    final_outcome: bool,
    now: i64,
    later_oracle: Oracle,
    later_caller: Address,
    later_outcome: bool,
    later_now: i64,
    disputer: Address,
    counter_evidence_hash: [u8; 32],
)
    requires
        resolve_rejection(oracle, proposal, caller, final_outcome, now) is None,
    ensures
        resolved_proposal(proposal, caller, final_outcome).resolved,
        resolve_rejection(
            later_oracle,
            resolved_proposal(proposal, caller, final_outcome),
            later_caller,
            later_outcome,
            later_now,
        ) is Some,
        later_now >= proposal.liveness_end ==> resolve_rejection(
            later_oracle,
            resolved_proposal(proposal, caller, final_outcome),
            later_caller,
            later_outcome,
            later_now,
        ) == Some(OracleError::AlreadyResolved),
        disputed_proposal(
            resolved_proposal(proposal, caller, final_outcome),
            later_oracle,
            disputer,
            counter_evidence_hash,
        ).resolved,
{
}

/// A proposal is disputed at most once. After one accepted dispute, every
/// further dispute is rejected, with `AlreadyDisputed` whenever it comes within
/// the window from a disputer who can cover the bond. A later resolution does
/// not clear the flag either.
pub proof fn lemma_dispute_at_most_once(
    oracle: Oracle,
    proposal: Proposal,
    disputer: Address,
    disputer_balance: u64,
    counter_evidence_hash: [u8; 32],
    now: i64,
    later_oracle: Oracle,
    later_balance: u64,
    later_now: i64,
    resolver: Address,
    final_outcome: bool,
)
    requires
        dispute_rejection(oracle, proposal, disputer_balance, now) is None,
    ensures
        disputed_proposal(proposal, oracle, disputer, counter_evidence_hash).disputed,
        dispute_rejection(
            later_oracle,
            disputed_proposal(proposal, oracle, disputer, counter_evidence_hash),
            later_balance,
            later_now,
        ) is Some,
        later_now < proposal.liveness_end && later_balance >= later_oracle.bond_amount
            ==> dispute_rejection(
            later_oracle,
            disputed_proposal(proposal, oracle, disputer, counter_evidence_hash),
            later_balance,
            later_now,
        ) == Some(OracleError::AlreadyDisputed),
        resolved_proposal(
            disputed_proposal(proposal, oracle, disputer, counter_evidence_hash),
            resolver,
            final_outcome,
        ).disputed,
{
}

/// A dispute is accepted only strictly before the window closes; at or after
/// the close it is rejected as untimely. For an undisputed proposal and a
/// disputer who can cover the bond, it is accepted exactly when it comes
/// before the close.
pub proof fn lemma_dispute_window(
    oracle: Oracle,
    proposal: Proposal,
    disputer_balance: u64,
    now: i64,
)
    ensures
        dispute_rejection(oracle, proposal, disputer_balance, now) is None ==> now
            < proposal.liveness_end,
        now >= proposal.liveness_end ==> dispute_rejection(oracle, proposal, disputer_balance, now)
            == Some(OracleError::LivenessActive),
        !proposal.disputed && disputer_balance >= oracle.bond_amount ==> (dispute_rejection(
            oracle,
            proposal,
            disputer_balance,
            now,
        ) is None <==> now < proposal.liveness_end),
{
}

/// A resolution is accepted only at or after the window's close; before it,
/// it is rejected as untimely whoever asks. For an unresolved proposal, asked
/// by a caller allowed to settle it on an admissible outcome, it is accepted
/// exactly when it comes at or after the close.
pub proof fn lemma_resolve_window(
    oracle: Oracle,
    proposal: Proposal,
    caller: Address,
    final_outcome: bool,
    now: i64,
)
    ensures
        resolve_rejection(oracle, proposal, caller, final_outcome, now) is None ==> now
            >= proposal.liveness_end,
        now < proposal.liveness_end ==> resolve_rejection(
            oracle,
            proposal,
            caller,
            final_outcome,
            now,
        ) == Some(OracleError::LivenessActive),
        !proposal.resolved && (proposal.disputed ==> caller == oracle.authority) && (
        !proposal.disputed ==> final_outcome == proposal.outcome) ==> (resolve_rejection(
            oracle,
            proposal,
            caller,
            final_outcome,
            now,
        ) is None <==> now >= proposal.liveness_end),
{
}

/// An undisputed proposal cannot be resolved on another outcome than the
/// proposed one. A disputed proposal can be resolved on either outcome, but
/// only by the authority: once the window has closed and while it is
/// unresolved, a resolution is accepted exactly when the authority asks.
pub proof fn lemma_resolution_outcome(
    oracle: Oracle,
    proposal: Proposal,
    caller: Address,
    final_outcome: bool,
    now: i64,
)
    ensures
        !proposal.disputed && final_outcome != proposal.outcome ==> resolve_rejection(
            oracle,
            proposal,
            caller,
            final_outcome,
            now,
        ) is Some,
        !proposal.disputed && final_outcome != proposal.outcome && now >= proposal.liveness_end
            && !proposal.resolved ==> resolve_rejection(oracle, proposal, caller, final_outcome, now)
            == Some(OracleError::ResolutionMismatch),
        proposal.disputed ==> (resolve_rejection(oracle, proposal, caller, final_outcome, now) is None
            ==> caller == oracle.authority),
        proposal.disputed && now >= proposal.liveness_end && !proposal.resolved ==> (
        resolve_rejection(oracle, proposal, caller, final_outcome, now) is None <==> caller
            == oracle.authority),
{
}

/// No bond is released before the proposal is resolved, to anyone.
pub proof fn lemma_no_withdrawal_before_resolution(proposal: Proposal, withdrawer: Address)
    requires
        !proposal.resolved,
    ensures
        withdrawal(proposal, withdrawer) == Err::<u64, OracleError>(OracleError::LivenessActive),
{
}

/// The counters never wrap. An accepted proposal adds exactly one active
/// proposal and stays below `u64::MAX`; a resolution takes one away, holding at
/// zero, and adds one resolved proposal, holding at `u64::MAX`, so the resolved
/// count never decreases.
pub proof fn lemma_counters_saturate(
    oracle: Oracle,
    event: Event,
    proposer_balance: u64,
    now: i64,
)
    ensures
        propose_rejection(oracle, event, proposer_balance, now) is None ==> {
            &&& oracle_after_propose(oracle).active_proposals == oracle.active_proposals + 1
            &&& oracle_after_propose(oracle).active_proposals < u64::MAX
            &&& oracle_after_propose(oracle).total_resolved == oracle.total_resolved
        },
        oracle_after_resolve(oracle).active_proposals == if oracle.active_proposals > 0 {
            oracle.active_proposals - 1
        } else {
            0
        },
        oracle_after_resolve(oracle).total_resolved == if oracle.total_resolved < u64::MAX {
            oracle.total_resolved + 1
        } else {
            u64::MAX as int
        },
        oracle_after_resolve(oracle).total_resolved >= oracle.total_resolved,
        oracle_after_resolve(oracle).active_proposals <= oracle.active_proposals,
{
}

} // verus!
