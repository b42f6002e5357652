//! Data model of the hub: messages, chain configurations, relayer
//! accounts, challenge records, and the closed error enumeration.

use vstd::prelude::*;

verus! {

/// An account address.  The value `0` is the zero address, used as the
/// "no address" sentinel (unset owner, unassigned relayer).
pub type Address = u64;

/// Lifecycle status of a message.  Transitions form a strict acyclic
/// state machine: `Pending -> Relayed -> (Confirmed | Failed)`.
#[derive(Clone, Copy, PartialEq, Eq, Structural, Debug)]
pub enum Status {
    Pending,
    Relayed,
    Confirmed,
    Failed,
}

/// Partial order on statuses induced by the lifecycle state machine:
/// `status_le(a, b)` holds when a message currently at `a` may later be
/// observed at `b` (in zero or more transitions).
pub open spec fn status_le(a: Status, b: Status) -> bool {
    ||| a == b
    ||| (a == Status::Pending && b != Status::Pending)
    ||| (a == Status::Relayed && (b == Status::Confirmed || b == Status::Failed))
}

/// `status_le` is a partial order: reflexive, transitive, antisymmetric.
pub proof fn lemma_status_le_partial_order(a: Status, b: Status, c: Status)
    ensures
        status_le(a, a),
        status_le(a, b) && status_le(b, c) ==> status_le(a, c),
        status_le(a, b) && status_le(b, a) ==> a == b,
{
}

/// A submitted message record.  Created only by sending; its status is
/// the only mutable part of the record afterwards, together with the
/// relayer address assigned when the message is relayed.
pub struct Message {
    pub sender: Address,
    pub destination_chain: u32,
    pub target: Address,
    pub data: Vec<u8>,
    pub timestamp: u64,
    pub fee_paid: u128,
    pub status: Status,
    pub relayer: Address,
}

/// Mathematical view of a [`Message`]: the payload as a sequence.
pub struct MessageView {
    pub sender: Address,
    pub destination_chain: u32,
    pub target: Address,
    pub data: Seq<u8>,
    pub timestamp: u64,
    pub fee_paid: u128,
    pub status: Status,
    pub relayer: Address,
}

impl View for Message {
    type V = MessageView;

    open spec fn view(&self) -> MessageView {
        MessageView {
            sender: self.sender,
            destination_chain: self.destination_chain,
            target: self.target,
            data: self.data@,
            timestamp: self.timestamp,
            fee_paid: self.fee_paid,
            status: self.status,
            relayer: self.relayer,
        }
    }
}

/// Configuration of a destination chain.  A chain is never deleted,
/// only disabled.  Invariant (kept by the hub): an enabled chain has a
/// nonzero receiver address.
#[derive(Clone, Copy, PartialEq, Eq, Structural, Debug)]
pub struct ChainConfig {
    pub enabled: bool,
    pub receiver: Address,
    pub base_fee: u128,
}

/// A relayer account: activity flag, current stake, and cumulative
/// performance counters.  Invariant (kept by the hub): the stake is
/// zero whenever `active` is false.
#[derive(Clone, Copy, PartialEq, Eq, Structural, Debug)]
pub struct RelayerInfo {
    pub active: bool,
    pub total_relayed: u64,
    pub successful: u64,
    pub slashed: u128,
    pub stake: u128,
}

/// The per-message challenge record, created when a message moves from
/// `Pending` to `Relayed`.  The deadline is fixed at creation; the
/// resolved flag moves only from false to true, exactly once, either by
/// a successful challenge or by finalization.
#[derive(Clone, Copy, PartialEq, Eq, Structural, Debug)]
pub struct Challenge {
    pub challenger: Address,
    pub deadline: u64,
    pub resolved: bool,
}

/// Every way a hub operation can fail, each with its structured
/// context.  No operation partially applies on error.
#[derive(Clone, Copy, PartialEq, Eq, Structural, Debug)]
pub enum HubError {
    ChainNotSupported { chain_id: u32 },
    InsufficientFee { required: u128, provided: u128 },
    MessageNotFound { message_id: u64 },
    ChallengeExpired { deadline: u64 },
    ChallengeWindowOpen { deadline: u64 },
    InsufficientStake { required: u128, provided: u128 },
    Unauthorized { caller: Address },
    InvalidProof,
    RelayerNotActive { relayer: Address },
    WrongStatus { expected: Status, actual: Status },
    TransferFailed,
    ZeroAddress,
    AlreadyInitialized,
}

} // verus!
