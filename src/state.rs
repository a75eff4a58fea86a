//! The records that the oracle keeps: its configuration, events and proposals.

use vstd::prelude::*;

verus! {

/// The resolution-type code of a binary (yes/no) event, the only kind of
/// event that proposals are accepted for.
pub const BINARY_RESOLUTION: u8 = 0;

/// A 32-byte key that identifies a principal or a stored record.
#[derive(Clone, Copy, Debug)]
pub struct Address(pub [u8; 32]);

impl PartialEq for Address {
    fn eq(&self, other: &Address) -> (r: bool) {
        let mut i: usize = 0;
        while i < 32
            invariant
                i <= 32,
                forall|j: int| 0 <= j < i ==> self.0[j] == other.0[j],
            decreases 32 - i,
        {
            if self.0[i] != other.0[i] {
                return false;
            }
            i = i + 1;
        }
        assert(self.0 =~= other.0);
        true
    }
}

impl Eq for Address {
}

impl vstd::std_specs::cmp::PartialEqSpecImpl for Address {
    open spec fn obeys_eq_spec() -> bool {
        true
    }

    open spec fn eq_spec(&self, other: &Address) -> bool {
        *self == *other
    }
}

/// The deployment-wide configuration and running counters of the oracle.
#[derive(Clone, Copy, Debug)]
pub struct Oracle {
    /// The principal that settles disputed proposals.
    pub authority: Address,
    /// How many proposals have been made and not yet resolved.
    pub active_proposals: u64,
    /// How many proposals have been resolved in all.
    pub total_resolved: u64,
    /// The stake that a proposer or a disputer must be able to post.
    pub bond_amount: u64,
    /// The length of a proposal's dispute window, in seconds.
    pub liveness_period: i64,
    /// The storage seed bump of this record.
    pub bump: u8,
}

/// An event whose outcome proposals assert.
#[derive(Clone, Debug)]
pub struct Event {
    pub id: u64,
    /// What the event is about, in words.
    pub description: String,
    /// How the event resolves; only `BINARY_RESOLUTION` is actionable.
    pub resolution_type: u8,
    /// The market that depends on this event.
    pub market_address: Address,
    /// When the event was created (Unix seconds).
    pub created_at: i64,
    pub creator: Address,
    /// The storage seed bump of this record.
    pub bump: u8,
}

/// An assertion of an event's outcome, with its dispute and resolution state.
#[derive(Clone, Copy, Debug)]
pub struct Proposal {
    pub id: u64,
    /// The key of the event that this proposal is about.
    pub event_id: Address,
    pub proposer: Address,
    /// The asserted outcome; after resolution, the final one.
    pub outcome: bool,
    /// Digest of the proposer's evidence.
    pub evidence_hash: [u8; 32],
    /// When the proposal was made (Unix seconds).
    pub submitted_at: i64,
    /// When its dispute window closes (Unix seconds).
    pub liveness_end: i64,
    /// The proposer's stake.
    pub bonded_amount: u64,
    pub resolved: bool,
    pub disputed: bool,
    /// The disputer's stake; zero while undisputed.
    pub dispute_bond: u64,
    pub disputer: Option<Address>,
    /// Digest of the disputer's counter-evidence.
    pub dispute_evidence_hash: [u8; 32],
    /// Who resolved the proposal.
    pub resolver: Option<Address>,
    /// The storage seed bump of this record.
    pub bump: u8,
}

impl Proposal {
    /// The dispute and resolution fields agree with the two flags.
    pub open spec fn wf(&self) -> bool {
        &&& self.disputed <==> self.disputer is Some
        &&& self.resolved <==> self.resolver is Some
        &&& !self.disputed ==> self.dispute_bond == 0
    }
}

/// The kinds of events, of which only `Binary` is supported by proposals.
#[derive(Clone, Debug)]
pub enum ResolutionType {
    Binary,
    MultiChoice { options: Vec<String> },
    Numeric { min: u64, max: u64 },
}

} // verus!
