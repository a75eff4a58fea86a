//! The oracle's operations: configuration, event creation, proposals,
//! disputes, resolution and bond settlement.
//!
//! Each operation either succeeds, with the effects its contract states, or
//! returns an error and leaves every record as it was.

use vstd::prelude::*;

use crate::error::OracleError;
use crate::state::{Address, Event, Oracle, Proposal, BINARY_RESOLUTION};

verus! {

/// Whether `x` fits in an `i64`.
pub open spec fn fits_i64(x: int) -> bool {
    i64::MIN <= x <= i64::MAX
}

/// Why `propose` rejects a proposal against `event` by a proposer whose
/// balance is `proposer_balance`, at time `now`; `None` if it accepts it.
pub open spec fn propose_rejection(
    oracle: Oracle,
    event: Event,
    proposer_balance: u64,
    now: i64,
) -> Option<OracleError> {
    if proposer_balance < oracle.bond_amount {
        Some(OracleError::InsufficientBond)
    } else if event.resolution_type != BINARY_RESOLUTION {
        Some(OracleError::ResolutionMismatch)
    } else if oracle.active_proposals + 1 >= u64::MAX {
        Some(OracleError::ArithmeticOverflow)
    } else if !fits_i64(now + oracle.liveness_period) {
        Some(OracleError::ArithmeticOverflow)
    } else {
        None
    }
}

/// `p` is the open proposal that `propose` records: numbered after the active
/// proposals, bonded with the configured amount, its window `liveness_period`
/// seconds long from `now`, neither disputed nor resolved.
pub open spec fn is_new_proposal(
    p: Proposal,
    oracle: Oracle,
    event_key: Address,
    proposer: Address,
    outcome: bool,
    evidence_hash: [u8; 32],
    now: i64,
    bump: u8,
) -> bool {
    &&& p.id == oracle.active_proposals + 1
    &&& p.event_id == event_key
    &&& p.proposer == proposer
    &&& p.outcome == outcome
    &&& p.evidence_hash == evidence_hash
    &&& p.submitted_at == now
    &&& p.liveness_end == now + oracle.liveness_period
    &&& p.bonded_amount == oracle.bond_amount
    &&& !p.resolved
    &&& !p.disputed
    &&& p.dispute_bond == 0
    &&& p.disputer is None
    &&& forall|i: int| 0 <= i < 32 ==> p.dispute_evidence_hash[i] == 0
    &&& p.resolver is None
    &&& p.bump == bump
}

/// The configuration after a proposal has been accepted: one more active
/// proposal.
pub open spec fn oracle_after_propose(oracle: Oracle) -> Oracle {
    Oracle { active_proposals: (oracle.active_proposals + 1) as u64, ..oracle }
}

/// Asserts `outcome` for the event stored under `event_key`, on behalf of
/// `proposer`, whose bondable balance is `proposer_balance`, at time `now`.
///
/// The proposer must be able to cover the configured bond and the event must
/// be binary. The new proposal is numbered `active_proposals + 1`, which must
/// stay below `u64::MAX`, and its dispute window closes `liveness_period`
/// seconds after `now`. On success the count of active proposals grows by one.
pub fn propose(
    oracle: &mut Oracle,
    event: &Event,
    event_key: Address,
    proposer: Address,
    proposer_balance: u64,
    outcome: bool,
    evidence_hash: [u8; 32],
    now: i64,
    bump: u8,
) -> (r: Result<Proposal, OracleError>)
    ensures
        r is Ok <==> propose_rejection(*old(oracle), *event, proposer_balance, now) is None,
        r matches Err(e) ==> {
            &&& propose_rejection(*old(oracle), *event, proposer_balance, now) == Some(e)
            &&& *final(oracle) == *old(oracle)
        },
        r matches Ok(p) ==> {
            &&& is_new_proposal(p, *old(oracle), event_key, proposer, outcome, evidence_hash, now, bump)
            &&& p.wf()
            &&& *final(oracle) == oracle_after_propose(*old(oracle))
        },
{
    if proposer_balance < oracle.bond_amount {
        return Err(OracleError::InsufficientBond);
    }
    if event.resolution_type != BINARY_RESOLUTION {
        return Err(OracleError::ResolutionMismatch);
    }
    if oracle.active_proposals >= u64::MAX - 1 {
        return Err(OracleError::ArithmeticOverflow);
    }
    let proposal_id: u64 = oracle.active_proposals + 1;
    let liveness_end: i64 = match now.checked_add(oracle.liveness_period) {
        Some(end) => end,
        None => {
            return Err(OracleError::ArithmeticOverflow);
        },
    };
    let proposal = Proposal {
        id: proposal_id,
        event_id: event_key,
        proposer,
        outcome,
        evidence_hash,
        submitted_at: now,
        liveness_end,
        bonded_amount: oracle.bond_amount,
        resolved: false,
        disputed: false,
        dispute_bond: 0,
        disputer: None,
        dispute_evidence_hash: [0u8; 32],
        resolver: None,
        bump,
    };
    oracle.active_proposals = proposal_id;
    Ok(proposal)
}

/// Announces that a proposal has been disputed.
#[derive(Clone, Copy, Debug)]
pub struct ProposalDisputed {
    pub proposal_id: u64,
    pub disputer: Address,
}

/// Announces that a proposal has been resolved, with its final outcome.
#[derive(Clone, Copy, Debug)]
pub struct ProposalResolved {
    pub proposal_id: u64,
    pub event_id: Address,
    pub outcome: bool,
    pub proposer: Address,
    pub disputed: bool,
}

/// Why `resolve` rejects settling `proposal` on `final_outcome`, asked by
/// `caller` at time `now`; `None` if it accepts.
pub open spec fn resolve_rejection(
    oracle: Oracle,
    proposal: Proposal,
    caller: Address,
    final_outcome: bool,
    now: i64,
) -> Option<OracleError> {
    if now < proposal.liveness_end {
        Some(OracleError::LivenessActive)
    } else if proposal.resolved {
        Some(OracleError::AlreadyResolved)
    } else if proposal.disputed && caller != oracle.authority {
        Some(OracleError::Unauthorized)
    } else if final_outcome != proposal.outcome && !proposal.disputed {
        Some(OracleError::ResolutionMismatch)
    } else {
        None
    }
}

/// `proposal` once `caller` has resolved it on `final_outcome`.
pub open spec fn resolved_proposal(proposal: Proposal, caller: Address, final_outcome: bool) -> Proposal {
    Proposal { outcome: final_outcome, resolved: true, resolver: Some(caller), ..proposal }
}

/// The configuration after a resolution: one active proposal fewer and one
/// resolved proposal more, each count held at its bound rather than wrapping.
pub open spec fn oracle_after_resolve(oracle: Oracle) -> Oracle {
    Oracle {
        active_proposals: if oracle.active_proposals == 0 {
            0
        } else {
            (oracle.active_proposals - 1) as u64
        },
        total_resolved: if oracle.total_resolved == u64::MAX {
            u64::MAX
        } else {
            (oracle.total_resolved + 1) as u64
        },
        ..oracle
    }
}

/// Settles `proposal` on `final_outcome`, on behalf of `caller`, at time `now`.
///
/// Resolution is possible once the dispute window has closed. An undisputed
/// proposal may be resolved by anyone, but only on its proposed outcome; a
/// disputed one only by the oracle's authority, on either outcome. A proposal
/// is resolved once: after the window, any further attempt is rejected as
/// already resolved, whoever makes it. On success the active count drops by
/// one (not below zero) and the resolved count grows by one (not past
/// `u64::MAX`).
pub fn resolve(
    oracle: &mut Oracle,
    proposal: &mut Proposal,
    caller: Address,
    final_outcome: bool,
    now: i64,
) -> (r: Result<ProposalResolved, OracleError>)
    ensures
        r is Ok <==> resolve_rejection(*old(oracle), *old(proposal), caller, final_outcome, now) is None,
        r matches Err(e) ==> {
            &&& resolve_rejection(*old(oracle), *old(proposal), caller, final_outcome, now) == Some(e)
            &&& *final(oracle) == *old(oracle)
            &&& *final(proposal) == *old(proposal)
        },
        r matches Ok(n) ==> {
            &&& *final(proposal) == resolved_proposal(*old(proposal), caller, final_outcome)
            &&& *final(oracle) == oracle_after_resolve(*old(oracle))
            &&& n == (ProposalResolved {
                proposal_id: old(proposal).id,
                event_id: old(proposal).event_id,
                outcome: final_outcome,
                proposer: old(proposal).proposer,
                disputed: old(proposal).disputed,
            })
        },
        old(proposal).wf() ==> final(proposal).wf(),
{
    if now < proposal.liveness_end {
        return Err(OracleError::LivenessActive);
    }
    if proposal.resolved {
        return Err(OracleError::AlreadyResolved);
    }
    if proposal.disputed && !(caller == oracle.authority) {
        return Err(OracleError::Unauthorized);
    }
    if final_outcome != proposal.outcome && !proposal.disputed {
        return Err(OracleError::ResolutionMismatch);
    }
    proposal.outcome = final_outcome;
    proposal.resolved = true;
    proposal.resolver = Some(caller);
    oracle.active_proposals = oracle.active_proposals.saturating_sub(1);
    oracle.total_resolved = oracle.total_resolved.saturating_add(1);
    Ok(
        ProposalResolved {
            proposal_id: proposal.id,
            event_id: proposal.event_id,
            outcome: final_outcome,
            proposer: proposal.proposer,
            disputed: proposal.disputed,
        },
    )
}

/// Why `dispute` rejects a challenge of `proposal` by a disputer whose balance
/// is `disputer_balance`, at time `now`; `None` if it accepts.
pub open spec fn dispute_rejection(
    oracle: Oracle,
    proposal: Proposal,
    disputer_balance: u64,
    now: i64,
) -> Option<OracleError> {
    if now >= proposal.liveness_end {
        Some(OracleError::LivenessActive)
    } else if disputer_balance < oracle.bond_amount {
        Some(OracleError::InsufficientBond)
    } else if proposal.disputed {
        Some(OracleError::AlreadyDisputed)
    } else {
        None
    }
}

/// `proposal` once `disputer` has challenged it with `counter_evidence_hash`,
/// bonding the configured amount.
pub open spec fn disputed_proposal(
    proposal: Proposal,
    oracle: Oracle,
    disputer: Address,
    counter_evidence_hash: [u8; 32],
) -> Proposal {
    Proposal {
        disputed: true,
        dispute_evidence_hash: counter_evidence_hash,
        disputer: Some(disputer),
        dispute_bond: oracle.bond_amount,
        ..proposal
    }
}

/// Challenges `proposal` on behalf of `disputer`, whose bondable balance is
/// `disputer_balance`, at time `now`.
///
/// A dispute is accepted strictly before the proposal's window closes, from a
/// disputer who can cover the configured bond, and only once per proposal.
pub fn dispute(
    oracle: &Oracle,
    proposal: &mut Proposal,
    disputer: Address,
    disputer_balance: u64,
    counter_evidence_hash: [u8; 32],
    now: i64,
) -> (r: Result<ProposalDisputed, OracleError>)
    ensures
        r is Ok <==> dispute_rejection(*oracle, *old(proposal), disputer_balance, now) is None,
        r matches Err(e) ==> {
            &&& dispute_rejection(*oracle, *old(proposal), disputer_balance, now) == Some(e)
            &&& *final(proposal) == *old(proposal)
        },
        r matches Ok(n) ==> {
            &&& *final(proposal) == disputed_proposal(*old(proposal), *oracle, disputer, counter_evidence_hash)
            &&& n == (ProposalDisputed { proposal_id: old(proposal).id, disputer })
        },
        old(proposal).wf() ==> final(proposal).wf(),
{
    if now >= proposal.liveness_end {
        return Err(OracleError::LivenessActive);
    }
    if disputer_balance < oracle.bond_amount {
        return Err(OracleError::InsufficientBond);
    }
    if proposal.disputed {
        return Err(OracleError::AlreadyDisputed);
    }
    proposal.disputed = true;
    proposal.dispute_evidence_hash = counter_evidence_hash;
    proposal.disputer = Some(disputer);
    proposal.dispute_bond = oracle.bond_amount;
    Ok(ProposalDisputed { proposal_id: proposal.id, disputer })
}

/// The bond that `withdrawer` may reclaim from `proposal`, or why it may not.
///
/// Nothing is released before resolution. The proposer may claim the
/// proposer's bond and the disputer the dispute bond, each if it is not zero;
/// anyone else is refused.
pub open spec fn withdrawal(proposal: Proposal, withdrawer: Address) -> Result<u64, OracleError> {
    if !proposal.resolved {
        Err(OracleError::LivenessActive)
    } else if withdrawer == proposal.proposer {
        if proposal.bonded_amount > 0 {
            Ok(proposal.bonded_amount)
        } else {
            Err(OracleError::InsufficientBond)
        }
    } else if proposal.disputer == Some(withdrawer) {
        if proposal.dispute_bond > 0 {
            Ok(proposal.dispute_bond)
        } else {
            Err(OracleError::InsufficientBond)
        }
    } else {
        Err(OracleError::Unauthorized)
    }
}

/// Authorizes `withdrawer` to reclaim a bond from a resolved `proposal` and
/// returns the amount released. Moving the funds is left to the host.
pub fn withdraw_bond(proposal: &Proposal, withdrawer: Address) -> (r: Result<u64, OracleError>)
    ensures
        r == withdrawal(*proposal, withdrawer),
{
    if !proposal.resolved {
        return Err(OracleError::LivenessActive);
    }
    if withdrawer == proposal.proposer {
        if proposal.bonded_amount > 0 {
            Ok(proposal.bonded_amount)
        } else {
            Err(OracleError::InsufficientBond)
        }
    } else {
        match proposal.disputer {
            Some(disputer) => {
                if withdrawer == disputer {
                    if proposal.dispute_bond > 0 {
                        Ok(proposal.dispute_bond)
                    } else {
                        Err(OracleError::InsufficientBond)
                    }
                } else {
                    Err(OracleError::Unauthorized)
                }
            },
            None => Err(OracleError::Unauthorized),
        }
    }
}

/// Creates the oracle's configuration, with both counters at zero.
pub fn initialize(authority: Address, bond_amount: u64, liveness_period: i64, bump: u8) -> (r: Oracle)
    ensures
        r == (Oracle {
            authority,
            active_proposals: 0,
            total_resolved: 0,
            bond_amount,
            liveness_period,
            bump,
        }),
{
    Oracle { authority, active_proposals: 0, total_resolved: 0, bond_amount, liveness_period, bump }
}

/// Records a new event created by `creator` at time `now`. Anyone may create
/// one. Its identifier is the oracle's resolved count plus one, which must not
/// pass `u64::MAX`; the configuration itself is only read.
pub fn create_event(
    oracle: &Oracle,
    description: String,
    resolution_type: u8,
    market_address: Address,
    creator: Address,
    now: i64,
    bump: u8,
) -> (r: Result<Event, OracleError>)
    ensures
        r is Err <==> oracle.total_resolved == u64::MAX,
        r matches Err(e) ==> e == OracleError::ArithmeticOverflow,
        r matches Ok(ev) ==> {
            &&& ev.id == oracle.total_resolved + 1
            &&& ev.description@ == description@
            &&& ev.resolution_type == resolution_type
            &&& ev.market_address == market_address
            &&& ev.created_at == now
            &&& ev.creator == creator
            &&& ev.bump == bump
        },
{
    if oracle.total_resolved == u64::MAX {
        return Err(OracleError::ArithmeticOverflow);
    }
    Ok(
        Event {
            id: oracle.total_resolved + 1,
            description,
            resolution_type,
            market_address,
            created_at: now,
            creator,
            bump,
        },
    )
}

} // verus!
