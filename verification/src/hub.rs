//! The hub controller: the public operation set over the persistent
//! state (messages, chains, relayers, challenges, and the treasury).
//!
//! The host environment is out of scope: each operation takes the
//! authenticated caller address, the value attached to the call, the
//! current timestamp, and — where the operation pays value out — the
//! report of the value-transfer primitive, as plain arguments.  Every
//! operation is atomic: on any error the state is exactly what it was
//! before the call.

use vstd::prelude::*;
use std::collections::HashMap;
use crate::ledger::{
    bps_of, bps_share, lemma_stake_sum_insert, lemma_stake_sum_member_le, lemma_stake_sum_nonneg,
    stake_sum,
};
use crate::types::{
    status_le, Address, ChainConfig, Challenge, HubError, Message, MessageView, RelayerInfo,
    Status,
};

verus! {

broadcast use vstd::std_specs::hash::group_hash_axioms, vstd::set::group_set_axioms;

/// Share of a message's fee paid to the relayer at confirmation, in
/// basis points.
pub const RELAYER_REWARD_BPS: u64 = 8000;

/// Share of a slashed stake paid to the successful challenger, in
/// basis points; the remainder accrues to the treasury.
pub const CHALLENGER_REWARD_BPS: u64 = 1000;

/// The messages of `pre` all survive into `post`, and each one's
/// status only moves forward along the lifecycle order.
pub open spec fn statuses_advance(pre: Map<u64, MessageView>, post: Map<u64, MessageView>) -> bool {
    &&& forall|id: u64| #[trigger] pre.contains_key(id) ==> post.contains_key(id)
    &&& forall|id: u64| #[trigger] pre.contains_key(id) ==> status_le(
        pre[id].status,
        post[id].status,
    )
}

/// Status monotonicity composes: a sequence of operations can only
/// move every message forward along the lifecycle order.
pub proof fn lemma_statuses_advance_trans(
    a: Map<u64, MessageView>,
    b: Map<u64, MessageView>,
    c: Map<u64, MessageView>,
)
    requires
        statuses_advance(a, b),
        statuses_advance(b, c),
    ensures
        statuses_advance(a, c),
{
}

/// The challenge records of `pre` all survive into `post`, each with
/// the deadline it was created with (a deadline never changes), and
/// resolution is monotonic: a resolved challenge never reopens.
pub open spec fn challenges_advance(pre: Map<u64, Challenge>, post: Map<u64, Challenge>) -> bool {
    &&& forall|id: u64| #[trigger] pre.contains_key(id) ==> post.contains_key(id)
    &&& forall|id: u64| #[trigger] pre.contains_key(id) ==> post[id].deadline == pre[id].deadline
    &&& forall|id: u64| #[trigger]
        pre.contains_key(id) ==> (pre[id].resolved ==> post[id].resolved)
}

/// Challenge-record permanence composes across sequences of
/// operations.
pub proof fn lemma_challenges_advance_trans(
    a: Map<u64, Challenge>,
    b: Map<u64, Challenge>,
    c: Map<u64, Challenge>,
)
    requires
        challenges_advance(a, b),
        challenges_advance(b, c),
    ensures
        challenges_advance(a, c),
{
}

/// The reference proof oracle, a test double standing in for real
/// proof cryptography: a proof is accepted when it is at least 65
/// bytes long and its first byte is nonzero.
pub open spec fn proof_accepted(proof: Seq<u8>) -> bool {
    proof.len() >= 65 && proof[0] != 0
}

/// Checks an execution proof for a relayed message against the
/// destination receiver.  Placeholder oracle: only the shape of the
/// proof is examined.
fn verify_execution_proof(
    _message_id: u64,
    _destination_chain: u32,
    proof: &Vec<u8>,
    _receiver: Address,
) -> (r: bool)
    ensures
        r == proof_accepted(proof@),
{
    proof.len() >= 65 && proof[0] != 0
}

/// Checks a fraud proof presented by a challenger.  Placeholder
/// oracle: only the shape of the proof is examined.
fn verify_fraud_proof(
    _message_id: u64,
    _destination_chain: u32,
    proof: &Vec<u8>,
    _receiver: Address,
) -> (r: bool)
    ensures
        r == proof_accepted(proof@),
{
    proof.len() >= 65 && proof[0] != 0
}

/// The hub's persistent state: four maps and the scalar registers.
///
/// `vault` is the total value the hub holds on behalf of the treasury
/// and the relayer stakes; fund conservation (`vault` equals treasury
/// balance plus the sum of all stakes) is part of [`MessageHub::wf`].
pub struct MessageHub {
    owner: Address,
    message_nonce: u64,
    messages: HashMap<u64, Message>,
    supported_chains: HashMap<u32, ChainConfig>,
    chain_count: u64,
    relayers: HashMap<u64, RelayerInfo>,
    min_stake: u128,
    protocol_fee_balance: u128,
    challenge_period: u64,
    challenges: HashMap<u64, Challenge>,
    vault: u128,
}

impl MessageHub {
    /// The hub's owner; the zero address until initialization.
    pub closed spec fn spec_owner(&self) -> Address {
        self.owner
    }

    /// The last assigned message identifier (0 before the first send).
    pub closed spec fn spec_nonce(&self) -> u64 {
        self.message_nonce
    }

    /// All stored messages, by identifier.
    pub closed spec fn spec_messages(&self) -> Map<u64, MessageView> {
        self.messages@.map_values(|m: Message| m@)
    }

    /// All registered destination chains, by chain identifier.
    pub closed spec fn spec_chains(&self) -> Map<u32, ChainConfig> {
        self.supported_chains@
    }

    /// Number of chain registrations that enabled a disabled chain.
    pub closed spec fn spec_chain_count(&self) -> u64 {
        self.chain_count
    }

    /// All relayer accounts ever seen, by address.
    pub closed spec fn spec_relayers(&self) -> Map<u64, RelayerInfo> {
        self.relayers@
    }

    /// Minimum stake a relayer registration must deposit.
    pub closed spec fn spec_min_stake(&self) -> u128 {
        self.min_stake
    }

    /// The protocol treasury balance.
    pub closed spec fn spec_treasury(&self) -> u128 {
        self.protocol_fee_balance
    }

    /// Length of the challenge window opened at confirmation.
    pub closed spec fn spec_challenge_period(&self) -> u64 {
        self.challenge_period
    }

    /// All challenge records, by message identifier.
    pub closed spec fn spec_challenges(&self) -> Map<u64, Challenge> {
        self.challenges@
    }

    /// Total value held by the hub (treasury plus stakes).
    pub closed spec fn spec_vault(&self) -> u128 {
        self.vault
    }

    /// The configuration of a chain; a chain never registered reads as
    /// disabled with a zero receiver and a zero base fee.
    pub open spec fn chain_at(&self, chain_id: u32) -> ChainConfig {
        if self.spec_chains().contains_key(chain_id) {
            self.spec_chains()[chain_id]
        } else {
            ChainConfig { enabled: false, receiver: 0, base_fee: 0 }
        }
    }

    /// The account of a relayer; an address never registered reads as
    /// inactive with a zero stake and zero counters.
    pub open spec fn relayer_at(&self, relayer: Address) -> RelayerInfo {
        if self.spec_relayers().contains_key(relayer) {
            self.spec_relayers()[relayer]
        } else {
            RelayerInfo { active: false, total_relayed: 0, successful: 0, slashed: 0, stake: 0 }
        }
    }

    /// Well-formedness: the internal invariants every operation
    /// preserves.
    ///
    /// - fund conservation: the vault holds exactly the treasury
    ///   balance plus the sum of all relayer stakes;
    /// - an inactive relayer holds no stake;
    /// - message identifiers are exactly `1 ..= nonce`;
    /// - a message past `Pending` has its relayer on the ledger;
    /// - a challenge record exists exactly for the messages past
    ///   `Pending`, and is resolved exactly when its message has left
    ///   `Relayed`;
    /// - an enabled chain has a nonzero receiver address.
    pub closed spec fn wf(&self) -> bool {
        &&& self.spec_vault() as int == self.spec_treasury() + stake_sum(self.spec_relayers())
        &&& forall|a: u64|
            self.spec_relayers().contains_key(a) && !(#[trigger] self.spec_relayers()[a]).active
                ==> self.spec_relayers()[a].stake == 0
        &&& forall|id: u64| #[trigger]
            self.spec_messages().contains_key(id) ==> 1 <= id && id <= self.spec_nonce()
        &&& forall|id: u64|
            1 <= id && id <= self.spec_nonce() ==> #[trigger] self.spec_messages().contains_key(id)
        &&& forall|id: u64| #[trigger]
            self.spec_messages().contains_key(id) && self.spec_messages()[id].status
                != Status::Pending ==> self.spec_relayers().contains_key(
                self.spec_messages()[id].relayer,
            )
        &&& forall|id: u64| #[trigger]
            self.spec_challenges().contains_key(id) <==> (self.spec_messages().contains_key(id)
                && self.spec_messages()[id].status != Status::Pending)
        &&& forall|id: u64| #[trigger]
            self.spec_challenges().contains_key(id) ==> (self.spec_challenges()[id].resolved
                <==> self.spec_messages()[id].status != Status::Relayed)
        &&& forall|c: u32|
            self.spec_chains().contains_key(c) && (#[trigger] self.spec_chains()[c]).enabled
                ==> self.spec_chains()[c].receiver != 0
    }

    /// Fund conservation: the value the hub holds is exactly the
    /// treasury balance plus the sum of all relayer stakes — every
    /// deposited fee or stake is either still accounted for or was
    /// paid out, with floor-division remainders accruing to the
    /// treasury.
    pub proof fn lemma_fund_conservation(&self)
        requires
            self.wf(),
        ensures
            self.spec_vault() as int == self.spec_treasury() + stake_sum(self.spec_relayers()),
            self.spec_treasury() <= self.spec_vault(),
    {
        lemma_stake_sum_nonneg(self.spec_relayers());
    }

    /// An inactive relayer account holds no stake.
    pub proof fn lemma_inactive_relayer_has_no_stake(&self, relayer: Address)
        requires
            self.wf(),
            !self.relayer_at(relayer).active,
        ensures
            self.relayer_at(relayer).stake == 0,
    {
    }

    /// Message identifiers are exactly the integers from 1 to the
    /// message count: assigned in order, starting at 1, never reused.
    pub proof fn lemma_message_ids_dense(&self, id: u64)
        requires
            self.wf(),
        ensures
            self.spec_messages().contains_key(id) <==> 1 <= id && id <= self.spec_nonce(),
    {
    }

    /// A fresh hub: everything zero and empty, as the host's storage
    /// starts out.
    pub fn new() -> (hub: MessageHub)
        ensures
            hub.wf(),
            hub.spec_owner() == 0,
            hub.spec_nonce() == 0,
            hub.spec_messages() == Map::<u64, MessageView>::empty(),
            hub.spec_chains() == Map::<u32, ChainConfig>::empty(),
            hub.spec_chain_count() == 0,
            hub.spec_relayers() == Map::<u64, RelayerInfo>::empty(),
            hub.spec_min_stake() == 0,
            hub.spec_treasury() == 0,
            hub.spec_challenge_period() == 0,
            hub.spec_challenges() == Map::<u64, Challenge>::empty(),
            hub.spec_vault() == 0,
    {
        let hub = MessageHub {
            owner: 0,
            message_nonce: 0,
            messages: HashMap::new(),
            supported_chains: HashMap::new(),
            chain_count: 0,
            relayers: HashMap::new(),
            min_stake: 0,
            protocol_fee_balance: 0,
            challenge_period: 0,
            challenges: HashMap::new(),
            vault: 0,
        };
        proof {
            assert(hub.spec_messages() =~= Map::<u64, MessageView>::empty());
            assert(hub.spec_relayers().dom() =~= Set::<u64>::empty());
            lemma_stake_sum_empty(hub.spec_relayers());
        }
        hub
    }

    /// Reads a relayer account, giving the zero-default account for an
    /// address never seen.
    fn relayer_info(&self, relayer: Address) -> (r: RelayerInfo)
        ensures
            r == self.relayer_at(relayer),
    {
        match self.relayers.get(&relayer) {
            Some(info) => *info,
            None => RelayerInfo {
                active: false,
                total_relayed: 0,
                successful: 0,
                slashed: 0,
                stake: 0,
            },
        }
    }

    /// Reads a chain configuration, giving the zero-default (disabled)
    /// configuration for a chain never registered.
    fn chain_config(&self, chain_id: u32) -> (r: ChainConfig)
        ensures
            r == self.chain_at(chain_id),
    {
        match self.supported_chains.get(&chain_id) {
            Some(cfg) => *cfg,
            None => ChainConfig { enabled: false, receiver: 0, base_fee: 0 },
        }
    }

    /// Sets the owner, the minimum stake and the challenge period,
    /// exactly once: fails `AlreadyInitialized` once an owner is set.
    pub fn initialize(&mut self, min_stake: u128, challenge_period: u64, caller: Address) -> (r:
        Result<(), HubError>)
        requires
            old(self).wf(),
        ensures
            final(self).wf(),
            r is Err ==> *final(self) == *old(self),
            old(self).spec_owner() != 0 ==> r == Err::<(), HubError>(HubError::AlreadyInitialized),
            old(self).spec_owner() == 0 ==> {
                &&& r == Ok::<(), HubError>(())
                &&& final(self).spec_owner() == caller
                &&& final(self).spec_min_stake() == min_stake
                &&& final(self).spec_challenge_period() == challenge_period
                &&& final(self).spec_nonce() == old(self).spec_nonce()
                &&& final(self).spec_messages() == old(self).spec_messages()
                &&& final(self).spec_chains() == old(self).spec_chains()
                &&& final(self).spec_chain_count() == old(self).spec_chain_count()
                &&& final(self).spec_relayers() == old(self).spec_relayers()
                &&& final(self).spec_treasury() == old(self).spec_treasury()
                &&& final(self).spec_challenges() == old(self).spec_challenges()
                &&& final(self).spec_vault() == old(self).spec_vault()
            },
            statuses_advance(old(self).spec_messages(), final(self).spec_messages()),
            challenges_advance(old(self).spec_challenges(), final(self).spec_challenges()),
    {
        if self.owner != 0 {
            return Err(HubError::AlreadyInitialized);
        }
        self.owner = caller;
        self.min_stake = min_stake;
        self.challenge_period = challenge_period;
        proof {
            assert(self.spec_relayers() == old(self).spec_relayers());
            assert(self.spec_messages() == old(self).spec_messages());
            assert(self.spec_challenges() == old(self).spec_challenges());
            assert(self.spec_chains() == old(self).spec_chains());
            assert(self.wf());
        }
        Ok(())
    }

    /// Hands ownership to a new, nonzero owner address.
    pub fn transfer_ownership(&mut self, new_owner: Address, caller: Address) -> (r: Result<
        (),
        HubError,
    >)
        requires
            old(self).wf(),
        ensures
            final(self).wf(),
            r is Err ==> *final(self) == *old(self),
            caller != old(self).spec_owner() ==> r == Err::<(), HubError>(
                (HubError::Unauthorized { caller }),
            ),
            caller == old(self).spec_owner() && new_owner == 0 ==> r == Err::<(), HubError>(
                HubError::ZeroAddress,
            ),
            caller == old(self).spec_owner() && new_owner != 0 ==> {
                &&& r == Ok::<(), HubError>(())
                &&& final(self).spec_owner() == new_owner
                &&& final(self).spec_min_stake() == old(self).spec_min_stake()
                &&& final(self).spec_challenge_period() == old(self).spec_challenge_period()
                &&& final(self).spec_nonce() == old(self).spec_nonce()
                &&& final(self).spec_messages() == old(self).spec_messages()
                &&& final(self).spec_chains() == old(self).spec_chains()
                &&& final(self).spec_chain_count() == old(self).spec_chain_count()
                &&& final(self).spec_relayers() == old(self).spec_relayers()
                &&& final(self).spec_treasury() == old(self).spec_treasury()
                &&& final(self).spec_challenges() == old(self).spec_challenges()
                &&& final(self).spec_vault() == old(self).spec_vault()
            },
            statuses_advance(old(self).spec_messages(), final(self).spec_messages()),
            challenges_advance(old(self).spec_challenges(), final(self).spec_challenges()),
    {
        if caller != self.owner {
            return Err(HubError::Unauthorized { caller });
        }
        if new_owner == 0 {
            return Err(HubError::ZeroAddress);
        }
        self.owner = new_owner;
        proof {
            assert(self.spec_relayers() == old(self).spec_relayers());
            assert(self.spec_messages() == old(self).spec_messages());
            assert(self.spec_challenges() == old(self).spec_challenges());
            assert(self.spec_chains() == old(self).spec_chains());
            assert(self.wf());
        }
        Ok(())
    }

    /// Registers or reconfigures a destination chain (owner only).
    /// Enables it, records the receiver and base fee; counts the
    /// registration only when it enabled a chain not currently
    /// enabled, so re-registration does not double-count.
    pub fn add_chain(
        &mut self,
        chain_id: u32,
        receiver_address: Address,
        base_fee: u128,
        caller: Address,
    ) -> (r: Result<(), HubError>)
        requires
            old(self).wf(),
            caller == old(self).spec_owner() && receiver_address != 0 && !old(self).chain_at(
                chain_id,
            ).enabled ==> old(self).spec_chain_count() < u64::MAX,
        ensures
            final(self).wf(),
            r is Err ==> *final(self) == *old(self),
            caller != old(self).spec_owner() ==> r == Err::<(), HubError>(
                (HubError::Unauthorized { caller }),
            ),
            caller == old(self).spec_owner() && receiver_address == 0 ==> r == Err::<(), HubError>(
                HubError::ZeroAddress,
            ),
            caller == old(self).spec_owner() && receiver_address != 0 ==> {
                &&& r == Ok::<(), HubError>(())
                &&& final(self).spec_chains() == old(self).spec_chains().insert(
                    chain_id,
                    (ChainConfig { enabled: true, receiver: receiver_address, base_fee }),
                )
                &&& final(self).spec_chain_count() == if old(self).chain_at(chain_id).enabled {
                    old(self).spec_chain_count() as int
                } else {
                    old(self).spec_chain_count() + 1
                }
                &&& final(self).spec_owner() == old(self).spec_owner()
                &&& final(self).spec_min_stake() == old(self).spec_min_stake()
                &&& final(self).spec_challenge_period() == old(self).spec_challenge_period()
                &&& final(self).spec_nonce() == old(self).spec_nonce()
                &&& final(self).spec_messages() == old(self).spec_messages()
                &&& final(self).spec_relayers() == old(self).spec_relayers()
                &&& final(self).spec_treasury() == old(self).spec_treasury()
                &&& final(self).spec_challenges() == old(self).spec_challenges()
                &&& final(self).spec_vault() == old(self).spec_vault()
            },
            statuses_advance(old(self).spec_messages(), final(self).spec_messages()),
            challenges_advance(old(self).spec_challenges(), final(self).spec_challenges()),
    {
        if caller != self.owner {
            return Err(HubError::Unauthorized { caller });
        }
        if receiver_address == 0 {
            return Err(HubError::ZeroAddress);
        }
        let is_new = !self.chain_config(chain_id).enabled;
        self.supported_chains.insert(
            chain_id,
            ChainConfig { enabled: true, receiver: receiver_address, base_fee },
        );
        if is_new {
            self.chain_count = self.chain_count + 1;
        }
        proof {
            assert(self.spec_relayers() == old(self).spec_relayers());
            assert(self.spec_messages() == old(self).spec_messages());
            assert(self.spec_challenges() == old(self).spec_challenges());
            assert(self.spec_chains() == old(self).spec_chains().insert(
                chain_id,
                (ChainConfig { enabled: true, receiver: receiver_address, base_fee }),
            ));
            assert(self.wf());
        }
        Ok(())
    }

    /// Disables a destination chain (owner only); messages already
    /// relayed against it are unaffected.
    pub fn disable_chain(&mut self, chain_id: u32, caller: Address) -> (r: Result<(), HubError>)
        requires
            old(self).wf(),
        ensures
            final(self).wf(),
            r is Err ==> *final(self) == *old(self),
            caller != old(self).spec_owner() ==> r == Err::<(), HubError>(
                (HubError::Unauthorized { caller }),
            ),
            caller == old(self).spec_owner() ==> {
                &&& r == Ok::<(), HubError>(())
                &&& final(self).spec_chains() == old(self).spec_chains().insert(
                    chain_id,
                    (ChainConfig { enabled: false, ..old(self).chain_at(chain_id) }),
                )
                &&& final(self).spec_chain_count() == old(self).spec_chain_count()
                &&& final(self).spec_owner() == old(self).spec_owner()
                &&& final(self).spec_min_stake() == old(self).spec_min_stake()
                &&& final(self).spec_challenge_period() == old(self).spec_challenge_period()
                &&& final(self).spec_nonce() == old(self).spec_nonce()
                &&& final(self).spec_messages() == old(self).spec_messages()
                &&& final(self).spec_relayers() == old(self).spec_relayers()
                &&& final(self).spec_treasury() == old(self).spec_treasury()
                &&& final(self).spec_challenges() == old(self).spec_challenges()
                &&& final(self).spec_vault() == old(self).spec_vault()
            },
            statuses_advance(old(self).spec_messages(), final(self).spec_messages()),
            challenges_advance(old(self).spec_challenges(), final(self).spec_challenges()),
    {
        if caller != self.owner {
            return Err(HubError::Unauthorized { caller });
        }
        let cfg = self.chain_config(chain_id);
        self.supported_chains.insert(
            chain_id,
            ChainConfig { enabled: false, receiver: cfg.receiver, base_fee: cfg.base_fee },
        );
        proof {
            assert(self.spec_relayers() == old(self).spec_relayers());
            assert(self.spec_messages() == old(self).spec_messages());
            assert(self.spec_challenges() == old(self).spec_challenges());
            assert(self.spec_chains() == old(self).spec_chains().insert(
                chain_id,
                (ChainConfig { enabled: false, ..old(self).chain_at(chain_id) }),
            ));
            assert(self.wf());
        }
        Ok(())
    }

    /// A send succeeds exactly when the destination chain is enabled
    /// and the attached value covers its base fee.
    pub open spec fn send_ok(&self, destination_chain: u32, value: u128) -> bool {
        &&& self.chain_at(destination_chain).enabled
        &&& value >= self.chain_at(destination_chain).base_fee
    }

    /// Submits a message for delivery to `destination_chain`, paying
    /// the attached `value` as the fee.  Assigns the next identifier
    /// (starting at 1, strictly increasing, never reused), stores the
    /// message as `Pending`, and credits the fee to the treasury.
    pub fn send_message(
        &mut self,
        destination_chain: u32,
        target: Address,
        data: Vec<u8>,
        caller: Address,
        value: u128,
        now: u64,
    ) -> (r: Result<u64, HubError>)
        requires
            old(self).wf(),
            old(self).send_ok(destination_chain, value) ==> old(self).spec_nonce() < u64::MAX
                && old(self).spec_vault() + value <= u128::MAX,
        ensures
            final(self).wf(),
            r is Err ==> *final(self) == *old(self),
            !old(self).chain_at(destination_chain).enabled ==> r == Err::<u64, HubError>(
                (HubError::ChainNotSupported { chain_id: destination_chain }),
            ),
            old(self).chain_at(destination_chain).enabled && value < old(self).chain_at(
                destination_chain,
            ).base_fee ==> r == Err::<u64, HubError>(
                (HubError::InsufficientFee {
                    required: old(self).chain_at(destination_chain).base_fee,
                    provided: value,
                }),
            ),
            old(self).send_ok(destination_chain, value) ==> {
                let id = (old(self).spec_nonce() + 1) as u64;
                &&& r == Ok::<u64, HubError>(id)
                &&& final(self).spec_nonce() == id
                &&& final(self).spec_messages() == old(self).spec_messages().insert(
                    id,
                    (MessageView {
                        sender: caller,
                        destination_chain,
                        target,
                        data: data@,
                        timestamp: now,
                        fee_paid: value,
                        status: Status::Pending,
                        relayer: 0,
                    }),
                )
                &&& final(self).spec_treasury() == old(self).spec_treasury() + value
                &&& final(self).spec_vault() == old(self).spec_vault() + value
                &&& forall|i: u64| #[trigger]
                    old(self).spec_messages().contains_key(i) ==> i < id
                &&& final(self).spec_owner() == old(self).spec_owner()
                &&& final(self).spec_min_stake() == old(self).spec_min_stake()
                &&& final(self).spec_challenge_period() == old(self).spec_challenge_period()
                &&& final(self).spec_chains() == old(self).spec_chains()
                &&& final(self).spec_chain_count() == old(self).spec_chain_count()
                &&& final(self).spec_relayers() == old(self).spec_relayers()
                &&& final(self).spec_challenges() == old(self).spec_challenges()
            },
            statuses_advance(old(self).spec_messages(), final(self).spec_messages()),
            challenges_advance(old(self).spec_challenges(), final(self).spec_challenges()),
    {
        let cfg = self.chain_config(destination_chain);
        if !cfg.enabled {
            return Err(HubError::ChainNotSupported { chain_id: destination_chain });
        }
        if value < cfg.base_fee {
            return Err(HubError::InsufficientFee { required: cfg.base_fee, provided: value });
        }
        let id = self.message_nonce + 1;
        self.message_nonce = id;
        let message = Message {
            sender: caller,
            destination_chain,
            target,
            data,
            timestamp: now,
            fee_paid: value,
            status: Status::Pending,
            relayer: 0,
        };
        proof {
            lemma_stake_sum_nonneg(self.spec_relayers());
        }
        let ghost message_view = message@;
        self.messages.insert(id, message);
        self.protocol_fee_balance = self.protocol_fee_balance + value;
        self.vault = self.vault + value;
        proof {
            assert(self.spec_relayers() == old(self).spec_relayers());
            assert(self.spec_challenges() == old(self).spec_challenges());
            assert(self.spec_chains() == old(self).spec_chains());
            assert(self.spec_messages() =~= old(self).spec_messages().insert(id, message_view));
            assert(self.wf());
        }
        Ok(id)
    }

    /// A confirmation succeeds exactly when the caller is an active
    /// relayer, the message exists and is `Pending`, and the oracle
    /// accepts the execution proof.
    pub open spec fn confirm_ok(&self, caller: Address, message_id: u64, proof: Seq<u8>) -> bool {
        &&& self.relayer_at(caller).active
        &&& self.spec_messages().contains_key(message_id)
        &&& self.spec_messages()[message_id].status == Status::Pending
        &&& proof_accepted(proof)
    }

    /// The relayer reward owed at confirmation: the basis-point share
    /// of the message's fee.
    pub open spec fn confirm_reward(&self, message_id: u64) -> int {
        bps_of(self.spec_messages()[message_id].fee_paid, RELAYER_REWARD_BPS)
    }

    /// An active relayer confirms delivery of a pending message with
    /// an execution proof.  Moves the message to `Relayed`, opens the
    /// challenge window (deadline `now` + challenge period), and pays
    /// the relayer the basis-point share of the fee out of the
    /// treasury.  If the value transfer fails, nothing changes.
    pub fn confirm_delivery(
        &mut self,
        message_id: u64,
        execution_proof: Vec<u8>,
        caller: Address,
        now: u64,
        transfer_ok: bool,
    ) -> (r: Result<(), HubError>)
        requires
            old(self).wf(),
            old(self).confirm_ok(caller, message_id, execution_proof@) ==> {
                &&& now + old(self).spec_challenge_period() <= u64::MAX
                &&& old(self).spec_treasury() >= old(self).confirm_reward(message_id)
                &&& old(self).relayer_at(caller).total_relayed < u64::MAX
            },
        ensures
            final(self).wf(),
            r is Err ==> *final(self) == *old(self),
            !old(self).relayer_at(caller).active ==> r == Err::<(), HubError>(
                (HubError::RelayerNotActive { relayer: caller }),
            ),
            old(self).relayer_at(caller).active && !old(self).spec_messages().contains_key(
                message_id,
            ) ==> r == Err::<(), HubError>((HubError::MessageNotFound { message_id })),
            old(self).relayer_at(caller).active && old(self).spec_messages().contains_key(
                message_id,
            ) && old(self).spec_messages()[message_id].status != Status::Pending ==> r == Err::<
                (),
                HubError,
            >(
                (HubError::WrongStatus {
                    expected: Status::Pending,
                    actual: old(self).spec_messages()[message_id].status,
                }),
            ),
            old(self).relayer_at(caller).active && old(self).spec_messages().contains_key(
                message_id,
            ) && old(self).spec_messages()[message_id].status == Status::Pending
                && !proof_accepted(execution_proof@) ==> r == Err::<(), HubError>(
                HubError::InvalidProof,
            ),
            old(self).confirm_ok(caller, message_id, execution_proof@) && !transfer_ok ==> r
                == Err::<(), HubError>(HubError::TransferFailed),
            old(self).confirm_ok(caller, message_id, execution_proof@) && transfer_ok ==> {
                let reward = old(self).confirm_reward(message_id);
                let deadline = (now + old(self).spec_challenge_period()) as u64;
                &&& r == Ok::<(), HubError>(())
                &&& final(self).spec_messages() == old(self).spec_messages().insert(
                    message_id,
                    (MessageView {
                        status: Status::Relayed,
                        relayer: caller,
                        ..old(self).spec_messages()[message_id]
                    }),
                )
                &&& final(self).spec_challenges() == old(self).spec_challenges().insert(
                    message_id,
                    (Challenge { challenger: 0, deadline, resolved: false }),
                )
                &&& final(self).spec_relayers() == old(self).spec_relayers().insert(
                    caller,
                    (RelayerInfo {
                        total_relayed: (old(self).relayer_at(caller).total_relayed + 1) as u64,
                        ..old(self).relayer_at(caller)
                    }),
                )
                &&& final(self).spec_treasury() == old(self).spec_treasury() - reward
                &&& final(self).spec_vault() == old(self).spec_vault() - reward
                &&& final(self).spec_owner() == old(self).spec_owner()
                &&& final(self).spec_min_stake() == old(self).spec_min_stake()
                &&& final(self).spec_challenge_period() == old(self).spec_challenge_period()
                &&& final(self).spec_nonce() == old(self).spec_nonce()
                &&& final(self).spec_chains() == old(self).spec_chains()
                &&& final(self).spec_chain_count() == old(self).spec_chain_count()
            },
            statuses_advance(old(self).spec_messages(), final(self).spec_messages()),
            challenges_advance(old(self).spec_challenges(), final(self).spec_challenges()),
    {
        let relayer_acct = self.relayer_info(caller);
        if !relayer_acct.active {
            return Err(HubError::RelayerNotActive { relayer: caller });
        }
        let (status, dest_chain, fee_paid) = match self.messages.get(&message_id) {
            Some(m) => (m.status, m.destination_chain, m.fee_paid),
            None => { return Err(HubError::MessageNotFound { message_id }) },
        };
        if status != Status::Pending {
            return Err(HubError::WrongStatus { expected: Status::Pending, actual: status });
        }
        let receiver = self.chain_config(dest_chain).receiver;
        if !verify_execution_proof(message_id, dest_chain, &execution_proof, receiver) {
            return Err(HubError::InvalidProof);
        }
        if !transfer_ok {
            return Err(HubError::TransferFailed);
        }
        let mut message = match self.messages.remove(&message_id) {
            Some(m) => m,
            None => { return Err(HubError::MessageNotFound { message_id }) },
        };
        message.status = Status::Relayed;
        message.relayer = caller;
        let ghost message_view = message@;
        self.messages.insert(message_id, message);
        let deadline = now + self.challenge_period;
        self.challenges.insert(
            message_id,
            Challenge { challenger: 0, deadline, resolved: false },
        );
        let reward = bps_share(fee_paid, RELAYER_REWARD_BPS);
        proof {
            lemma_stake_sum_nonneg(self.spec_relayers());
        }
        self.protocol_fee_balance = self.protocol_fee_balance - reward;
        self.vault = self.vault - reward;
        let updated = RelayerInfo {
            active: relayer_acct.active,
            total_relayed: relayer_acct.total_relayed + 1,
            successful: relayer_acct.successful,
            slashed: relayer_acct.slashed,
            stake: relayer_acct.stake,
        };
        self.relayers.insert(caller, updated);
        proof {
            lemma_stake_sum_insert(old(self).spec_relayers(), caller, updated);
            assert(self.spec_chains() == old(self).spec_chains());
            assert(self.spec_relayers() == old(self).spec_relayers().insert(caller, updated));
            assert(self.spec_messages() =~= old(self).spec_messages().insert(
                message_id,
                message_view,
            ));
            assert(self.spec_challenges() == old(self).spec_challenges().insert(
                message_id,
                (Challenge { challenger: 0, deadline, resolved: false }),
            ));
            assert(self.wf());
        }
        Ok(())
    }

    /// A challenge succeeds exactly when an unresolved challenge
    /// record exists, the deadline has not passed (`now` equal to the
    /// deadline still counts as within the window), the message is
    /// `Relayed`, and the oracle accepts the fraud proof.
    pub open spec fn challenge_ok(&self, message_id: u64, now: u64, proof: Seq<u8>) -> bool {
        &&& self.spec_challenges().contains_key(message_id)
        &&& !self.spec_challenges()[message_id].resolved
        &&& now <= self.spec_challenges()[message_id].deadline
        &&& self.spec_messages().contains_key(message_id)
        &&& self.spec_messages()[message_id].status == Status::Relayed
        &&& proof_accepted(proof)
    }

    /// The challenger reward owed on a successful challenge: the
    /// basis-point share of the slashed relayer's stake.
    pub open spec fn challenger_reward(&self, message_id: u64) -> int {
        bps_of(
            self.relayer_at(self.spec_messages()[message_id].relayer).stake,
            CHALLENGER_REWARD_BPS,
        )
    }

    /// Anyone challenges a relayed message within its window with a
    /// fraud proof.  Seizes the relayer's entire stake, deactivates
    /// the relayer, pays the challenger the basis-point share of the
    /// stake, credits the remainder to the treasury, and moves the
    /// message to `Failed`.  If the value transfer fails, nothing
    /// changes.
    pub fn challenge_message(
        &mut self,
        message_id: u64,
        proof_of_fraud: Vec<u8>,
        caller: Address,
        now: u64,
        transfer_ok: bool,
    ) -> (r: Result<(), HubError>)
        requires
            old(self).wf(),
            old(self).challenge_ok(message_id, now, proof_of_fraud@) ==> {
                let slashed = old(self).relayer_at(old(self).spec_messages()[message_id].relayer);
                slashed.slashed + slashed.stake <= u128::MAX
            },
        ensures
            final(self).wf(),
            r is Err ==> *final(self) == *old(self),
            !old(self).spec_challenges().contains_key(message_id) ==> r == Err::<(), HubError>(
                (HubError::MessageNotFound { message_id }),
            ),
            old(self).spec_challenges().contains_key(message_id) && old(
                self,
            ).spec_challenges()[message_id].resolved ==> r == Err::<(), HubError>(
                (HubError::ChallengeExpired {
                    deadline: old(self).spec_challenges()[message_id].deadline,
                }),
            ),
            old(self).spec_challenges().contains_key(message_id) && !old(
                self,
            ).spec_challenges()[message_id].resolved && now > old(
                self,
            ).spec_challenges()[message_id].deadline ==> r == Err::<(), HubError>(
                (HubError::ChallengeExpired {
                    deadline: old(self).spec_challenges()[message_id].deadline,
                }),
            ),
            old(self).spec_challenges().contains_key(message_id) && !old(
                self,
            ).spec_challenges()[message_id].resolved && now <= old(
                self,
            ).spec_challenges()[message_id].deadline && old(
                self,
            ).spec_messages()[message_id].status != Status::Relayed ==> r == Err::<(), HubError>(
                (HubError::WrongStatus {
                    expected: Status::Relayed,
                    actual: old(self).spec_messages()[message_id].status,
                }),
            ),
            old(self).spec_challenges().contains_key(message_id) && !old(
                self,
            ).spec_challenges()[message_id].resolved && now <= old(
                self,
            ).spec_challenges()[message_id].deadline && old(
                self,
            ).spec_messages()[message_id].status == Status::Relayed && !proof_accepted(
                proof_of_fraud@,
            ) ==> r == Err::<(), HubError>(HubError::InvalidProof),
            old(self).challenge_ok(message_id, now, proof_of_fraud@) && !transfer_ok ==> r
                == Err::<(), HubError>(HubError::TransferFailed),
            old(self).challenge_ok(message_id, now, proof_of_fraud@) && transfer_ok ==> {
                let relayer = old(self).spec_messages()[message_id].relayer;
                let seized = old(self).relayer_at(relayer).stake;
                let reward = old(self).challenger_reward(message_id);
                &&& r == Ok::<(), HubError>(())
                &&& final(self).spec_relayers() == old(self).spec_relayers().insert(
                    relayer,
                    (RelayerInfo {
                        active: false,
                        stake: 0,
                        slashed: (old(self).relayer_at(relayer).slashed + seized) as u128,
                        ..old(self).relayer_at(relayer)
                    }),
                )
                &&& final(self).spec_treasury() == old(self).spec_treasury() + seized - reward
                &&& final(self).spec_vault() == old(self).spec_vault() - reward
                &&& final(self).spec_messages() == old(self).spec_messages().insert(
                    message_id,
                    (MessageView {
                        status: Status::Failed,
                        ..old(self).spec_messages()[message_id]
                    }),
                )
                &&& final(self).spec_challenges() == old(self).spec_challenges().insert(
                    message_id,
                    (Challenge {
                        challenger: caller,
                        deadline: old(self).spec_challenges()[message_id].deadline,
                        resolved: true,
                    }),
                )
                &&& final(self).spec_owner() == old(self).spec_owner()
                &&& final(self).spec_min_stake() == old(self).spec_min_stake()
                &&& final(self).spec_challenge_period() == old(self).spec_challenge_period()
                &&& final(self).spec_nonce() == old(self).spec_nonce()
                &&& final(self).spec_chains() == old(self).spec_chains()
                &&& final(self).spec_chain_count() == old(self).spec_chain_count()
            },
            statuses_advance(old(self).spec_messages(), final(self).spec_messages()),
            challenges_advance(old(self).spec_challenges(), final(self).spec_challenges()),
    {
        let ch = match self.challenges.get(&message_id) {
            Some(c) => *c,
            None => { return Err(HubError::MessageNotFound { message_id }) },
        };
        if ch.resolved {
            return Err(HubError::ChallengeExpired { deadline: ch.deadline });
        }
        if now > ch.deadline {
            return Err(HubError::ChallengeExpired { deadline: ch.deadline });
        }
        let (status, dest_chain, msg_relayer) = match self.messages.get(&message_id) {
            Some(m) => (m.status, m.destination_chain, m.relayer),
            None => { return Err(HubError::MessageNotFound { message_id }) },
        };
        if status != Status::Relayed {
            return Err(HubError::WrongStatus { expected: Status::Relayed, actual: status });
        }
        let receiver = self.chain_config(dest_chain).receiver;
        if !verify_fraud_proof(message_id, dest_chain, &proof_of_fraud, receiver) {
            return Err(HubError::InvalidProof);
        }
        if !transfer_ok {
            return Err(HubError::TransferFailed);
        }
        let prev = self.relayer_info(msg_relayer);
        proof {
            lemma_stake_sum_member_le(self.spec_relayers(), msg_relayer);
            lemma_stake_sum_nonneg(self.spec_relayers());
        }
        let updated = RelayerInfo {
            active: false,
            total_relayed: prev.total_relayed,
            successful: prev.successful,
            slashed: prev.slashed + prev.stake,
            stake: 0,
        };
        self.relayers.insert(msg_relayer, updated);
        let challenger_share = bps_share(prev.stake, CHALLENGER_REWARD_BPS);
        self.protocol_fee_balance = self.protocol_fee_balance + prev.stake - challenger_share;
        let mut message = match self.messages.remove(&message_id) {
            Some(m) => m,
            None => { return Err(HubError::MessageNotFound { message_id }) },
        };
        message.status = Status::Failed;
        let ghost message_view = message@;
        self.messages.insert(message_id, message);
        self.challenges.insert(
            message_id,
            Challenge { challenger: caller, deadline: ch.deadline, resolved: true },
        );
        self.vault = self.vault - challenger_share;
        proof {
            lemma_stake_sum_insert(old(self).spec_relayers(), msg_relayer, updated);
            assert(self.spec_chains() == old(self).spec_chains());
            assert(self.spec_relayers() == old(self).spec_relayers().insert(msg_relayer, updated));
            assert(self.spec_messages() =~= old(self).spec_messages().insert(
                message_id,
                message_view,
            ));
            assert(self.spec_challenges() == old(self).spec_challenges().insert(
                message_id,
                (Challenge { challenger: caller, deadline: ch.deadline, resolved: true }),
            ));
            assert(self.wf());
        }
        Ok(())
    }

    /// Finalization succeeds exactly when an unresolved challenge
    /// record exists, the window has closed (`now` strictly past the
    /// deadline), and the message is `Relayed`.
    pub open spec fn finalize_ok(&self, message_id: u64, now: u64) -> bool {
        &&& self.spec_challenges().contains_key(message_id)
        &&& !self.spec_challenges()[message_id].resolved
        &&& now > self.spec_challenges()[message_id].deadline
        &&& self.spec_messages().contains_key(message_id)
        &&& self.spec_messages()[message_id].status == Status::Relayed
    }

    /// Anyone finalizes a relayed message once its challenge window
    /// has closed without a successful challenge.  Moves the message
    /// to `Confirmed` and credits the relayer's success counter.  No
    /// value moves: the reward was paid at confirmation.
    pub fn finalize_message(&mut self, message_id: u64, now: u64) -> (r: Result<(), HubError>)
        requires
            old(self).wf(),
            old(self).finalize_ok(message_id, now) ==> old(self).relayer_at(
                old(self).spec_messages()[message_id].relayer,
            ).successful < u64::MAX,
        ensures
            final(self).wf(),
            r is Err ==> *final(self) == *old(self),
            !old(self).spec_challenges().contains_key(message_id) ==> r == Err::<(), HubError>(
                (HubError::MessageNotFound { message_id }),
            ),
            old(self).spec_challenges().contains_key(message_id) && old(
                self,
            ).spec_challenges()[message_id].resolved ==> r == Err::<(), HubError>(
                (HubError::WrongStatus { expected: Status::Relayed, actual: Status::Confirmed }),
            ),
            old(self).spec_challenges().contains_key(message_id) && !old(
                self,
            ).spec_challenges()[message_id].resolved && now <= old(
                self,
            ).spec_challenges()[message_id].deadline ==> r == Err::<(), HubError>(
                (HubError::ChallengeWindowOpen {
                    deadline: old(self).spec_challenges()[message_id].deadline,
                }),
            ),
            old(self).spec_challenges().contains_key(message_id) && !old(
                self,
            ).spec_challenges()[message_id].resolved && now > old(
                self,
            ).spec_challenges()[message_id].deadline && old(self).spec_messages()[message_id].status
                != Status::Relayed ==> r == Err::<(), HubError>(
                (HubError::WrongStatus {
                    expected: Status::Relayed,
                    actual: old(self).spec_messages()[message_id].status,
                }),
            ),
            old(self).finalize_ok(message_id, now) ==> {
                let relayer = old(self).spec_messages()[message_id].relayer;
                &&& r == Ok::<(), HubError>(())
                &&& final(self).spec_messages() == old(self).spec_messages().insert(
                    message_id,
                    (MessageView {
                        status: Status::Confirmed,
                        ..old(self).spec_messages()[message_id]
                    }),
                )
                &&& final(self).spec_relayers() == old(self).spec_relayers().insert(
                    relayer,
                    (RelayerInfo {
                        successful: (old(self).relayer_at(relayer).successful + 1) as u64,
                        ..old(self).relayer_at(relayer)
                    }),
                )
                &&& final(self).spec_challenges() == old(self).spec_challenges().insert(
                    message_id,
                    (Challenge {
                        resolved: true,
                        ..old(self).spec_challenges()[message_id]
                    }),
                )
                &&& final(self).spec_treasury() == old(self).spec_treasury()
                &&& final(self).spec_vault() == old(self).spec_vault()
                &&& final(self).spec_owner() == old(self).spec_owner()
                &&& final(self).spec_min_stake() == old(self).spec_min_stake()
                &&& final(self).spec_challenge_period() == old(self).spec_challenge_period()
                &&& final(self).spec_nonce() == old(self).spec_nonce()
                &&& final(self).spec_chains() == old(self).spec_chains()
                &&& final(self).spec_chain_count() == old(self).spec_chain_count()
            },
            statuses_advance(old(self).spec_messages(), final(self).spec_messages()),
            challenges_advance(old(self).spec_challenges(), final(self).spec_challenges()),
    {
        let ch = match self.challenges.get(&message_id) {
            Some(c) => *c,
            None => { return Err(HubError::MessageNotFound { message_id }) },
        };
        if ch.resolved {
            return Err(
                HubError::WrongStatus { expected: Status::Relayed, actual: Status::Confirmed },
            );
        }
        if now <= ch.deadline {
            return Err(HubError::ChallengeWindowOpen { deadline: ch.deadline });
        }
        let (status, msg_relayer) = match self.messages.get(&message_id) {
            Some(m) => (m.status, m.relayer),
            None => { return Err(HubError::MessageNotFound { message_id }) },
        };
        if status != Status::Relayed {
            return Err(HubError::WrongStatus { expected: Status::Relayed, actual: status });
        }
        let mut message = match self.messages.remove(&message_id) {
            Some(m) => m,
            None => { return Err(HubError::MessageNotFound { message_id }) },
        };
        message.status = Status::Confirmed;
        let ghost message_view = message@;
        self.messages.insert(message_id, message);
        let prev = self.relayer_info(msg_relayer);
        let updated = RelayerInfo {
            active: prev.active,
            total_relayed: prev.total_relayed,
            successful: prev.successful + 1,
            slashed: prev.slashed,
            stake: prev.stake,
        };
        self.relayers.insert(msg_relayer, updated);
        self.challenges.insert(
            message_id,
            Challenge { challenger: ch.challenger, deadline: ch.deadline, resolved: true },
        );
        proof {
            lemma_stake_sum_insert(old(self).spec_relayers(), msg_relayer, updated);
            assert(self.spec_chains() == old(self).spec_chains());
            assert(self.spec_relayers() == old(self).spec_relayers().insert(msg_relayer, updated));
            assert(self.spec_messages() =~= old(self).spec_messages().insert(
                message_id,
                message_view,
            ));
            assert(self.spec_challenges() == old(self).spec_challenges().insert(
                message_id,
                (Challenge { challenger: ch.challenger, deadline: ch.deadline, resolved: true }),
            ));
            assert(self.wf());
        }
        Ok(())
    }

    /// Registers the caller as a relayer, depositing `value` as
    /// stake.  The deposit must meet the minimum stake; an existing
    /// account is topped up and (re)activated.
    pub fn register_relayer(&mut self, caller: Address, value: u128) -> (r: Result<(), HubError>)
        requires
            old(self).wf(),
            value >= old(self).spec_min_stake() ==> old(self).spec_vault() + value <= u128::MAX,
        ensures
            final(self).wf(),
            r is Err ==> *final(self) == *old(self),
            value < old(self).spec_min_stake() ==> r == Err::<(), HubError>(
                (HubError::InsufficientStake {
                    required: old(self).spec_min_stake(),
                    provided: value,
                }),
            ),
            value >= old(self).spec_min_stake() ==> {
                &&& r == Ok::<(), HubError>(())
                &&& final(self).spec_relayers() == old(self).spec_relayers().insert(
                    caller,
                    (RelayerInfo {
                        active: true,
                        stake: (old(self).relayer_at(caller).stake + value) as u128,
                        ..old(self).relayer_at(caller)
                    }),
                )
                &&& final(self).spec_vault() == old(self).spec_vault() + value
                &&& final(self).spec_treasury() == old(self).spec_treasury()
                &&& final(self).spec_owner() == old(self).spec_owner()
                &&& final(self).spec_min_stake() == old(self).spec_min_stake()
                &&& final(self).spec_challenge_period() == old(self).spec_challenge_period()
                &&& final(self).spec_nonce() == old(self).spec_nonce()
                &&& final(self).spec_messages() == old(self).spec_messages()
                &&& final(self).spec_chains() == old(self).spec_chains()
                &&& final(self).spec_chain_count() == old(self).spec_chain_count()
                &&& final(self).spec_challenges() == old(self).spec_challenges()
            },
            statuses_advance(old(self).spec_messages(), final(self).spec_messages()),
            challenges_advance(old(self).spec_challenges(), final(self).spec_challenges()),
    {
        if value < self.min_stake {
            return Err(HubError::InsufficientStake { required: self.min_stake, provided: value });
        }
        let prev = self.relayer_info(caller);
        proof {
            lemma_stake_sum_nonneg(self.spec_relayers());
            if self.spec_relayers().contains_key(caller) {
                lemma_stake_sum_member_le(self.spec_relayers(), caller);
            }
        }
        let updated = RelayerInfo {
            active: true,
            total_relayed: prev.total_relayed,
            successful: prev.successful,
            slashed: prev.slashed,
            stake: prev.stake + value,
        };
        self.relayers.insert(caller, updated);
        self.vault = self.vault + value;
        proof {
            lemma_stake_sum_insert(old(self).spec_relayers(), caller, updated);
            assert(self.spec_messages() == old(self).spec_messages());
            assert(self.spec_challenges() == old(self).spec_challenges());
            assert(self.spec_chains() == old(self).spec_chains());
            assert(self.spec_relayers() == old(self).spec_relayers().insert(caller, updated));
            assert(self.wf());
        }
        Ok(())
    }

    /// Deactivates the caller's relayer account and returns the whole
    /// stake.  If the value transfer fails, nothing changes.
    pub fn exit_relayer(&mut self, caller: Address, transfer_ok: bool) -> (r: Result<(), HubError>)
        requires
            old(self).wf(),
        ensures
            final(self).wf(),
            r is Err ==> *final(self) == *old(self),
            !old(self).relayer_at(caller).active ==> r == Err::<(), HubError>(
                (HubError::RelayerNotActive { relayer: caller }),
            ),
            old(self).relayer_at(caller).active && !transfer_ok ==> r == Err::<(), HubError>(
                HubError::TransferFailed,
            ),
            old(self).relayer_at(caller).active && transfer_ok ==> {
                &&& r == Ok::<(), HubError>(())
                &&& final(self).spec_relayers() == old(self).spec_relayers().insert(
                    caller,
                    (RelayerInfo { active: false, stake: 0, ..old(self).relayer_at(caller) }),
                )
                &&& final(self).spec_vault() == old(self).spec_vault() - old(self).relayer_at(
                    caller,
                ).stake
                &&& final(self).spec_treasury() == old(self).spec_treasury()
                &&& final(self).spec_owner() == old(self).spec_owner()
                &&& final(self).spec_min_stake() == old(self).spec_min_stake()
                &&& final(self).spec_challenge_period() == old(self).spec_challenge_period()
                &&& final(self).spec_nonce() == old(self).spec_nonce()
                &&& final(self).spec_messages() == old(self).spec_messages()
                &&& final(self).spec_chains() == old(self).spec_chains()
                &&& final(self).spec_chain_count() == old(self).spec_chain_count()
                &&& final(self).spec_challenges() == old(self).spec_challenges()
            },
            statuses_advance(old(self).spec_messages(), final(self).spec_messages()),
            challenges_advance(old(self).spec_challenges(), final(self).spec_challenges()),
    {
        let prev = self.relayer_info(caller);
        if !prev.active {
            return Err(HubError::RelayerNotActive { relayer: caller });
        }
        if !transfer_ok {
            return Err(HubError::TransferFailed);
        }
        proof {
            lemma_stake_sum_member_le(self.spec_relayers(), caller);
        }
        let updated = RelayerInfo {
            active: false,
            total_relayed: prev.total_relayed,
            successful: prev.successful,
            slashed: prev.slashed,
            stake: 0,
        };
        self.relayers.insert(caller, updated);
        self.vault = self.vault - prev.stake;
        proof {
            lemma_stake_sum_insert(old(self).spec_relayers(), caller, updated);
            assert(self.spec_messages() == old(self).spec_messages());
            assert(self.spec_challenges() == old(self).spec_challenges());
            assert(self.spec_chains() == old(self).spec_chains());
            assert(self.spec_relayers() == old(self).spec_relayers().insert(caller, updated));
            assert(self.wf());
        }
        Ok(())
    }

    /// Pays `amount` from the treasury to the owner (owner only).
    /// Fails `InsufficientFee` when the amount exceeds the balance; if
    /// the value transfer fails, nothing changes.
    pub fn withdraw_fees(&mut self, amount: u128, caller: Address, transfer_ok: bool) -> (r: Result<
        (),
        HubError,
    >)
        requires
            old(self).wf(),
        ensures
            final(self).wf(),
            r is Err ==> *final(self) == *old(self),
            caller != old(self).spec_owner() ==> r == Err::<(), HubError>(
                (HubError::Unauthorized { caller }),
            ),
            caller == old(self).spec_owner() && amount > old(self).spec_treasury() ==> r == Err::<
                (),
                HubError,
            >((HubError::InsufficientFee { required: amount, provided: old(self).spec_treasury() })),
            caller == old(self).spec_owner() && amount <= old(self).spec_treasury() && !transfer_ok
                ==> r == Err::<(), HubError>(HubError::TransferFailed),
            caller == old(self).spec_owner() && amount <= old(self).spec_treasury() && transfer_ok
                ==> {
                &&& r == Ok::<(), HubError>(())
                &&& final(self).spec_treasury() == old(self).spec_treasury() - amount
                &&& final(self).spec_vault() == old(self).spec_vault() - amount
                &&& final(self).spec_owner() == old(self).spec_owner()
                &&& final(self).spec_min_stake() == old(self).spec_min_stake()
                &&& final(self).spec_challenge_period() == old(self).spec_challenge_period()
                &&& final(self).spec_nonce() == old(self).spec_nonce()
                &&& final(self).spec_messages() == old(self).spec_messages()
                &&& final(self).spec_chains() == old(self).spec_chains()
                &&& final(self).spec_chain_count() == old(self).spec_chain_count()
                &&& final(self).spec_relayers() == old(self).spec_relayers()
                &&& final(self).spec_challenges() == old(self).spec_challenges()
            },
            statuses_advance(old(self).spec_messages(), final(self).spec_messages()),
            challenges_advance(old(self).spec_challenges(), final(self).spec_challenges()),
    {
        if caller != self.owner {
            return Err(HubError::Unauthorized { caller });
        }
        if amount > self.protocol_fee_balance {
            return Err(
                HubError::InsufficientFee { required: amount, provided: self.protocol_fee_balance },
            );
        }
        if !transfer_ok {
            return Err(HubError::TransferFailed);
        }
        proof {
            lemma_stake_sum_nonneg(self.spec_relayers());
        }
        self.protocol_fee_balance = self.protocol_fee_balance - amount;
        self.vault = self.vault - amount;
        proof {
            assert(self.spec_relayers() == old(self).spec_relayers());
            assert(self.spec_messages() == old(self).spec_messages());
            assert(self.spec_challenges() == old(self).spec_challenges());
            assert(self.spec_chains() == old(self).spec_chains());
            assert(self.wf());
        }
        Ok(())
    }

    /// Message status, or `MessageNotFound` for an unknown identifier.
    pub fn get_message_status(&self, message_id: u64) -> (r: Result<Status, HubError>)
        ensures
            self.spec_messages().contains_key(message_id) ==> r == Ok::<Status, HubError>(
                self.spec_messages()[message_id].status,
            ),
            !self.spec_messages().contains_key(message_id) ==> r == Err::<Status, HubError>(
                (HubError::MessageNotFound { message_id }),
            ),
    {
        match self.messages.get(&message_id) {
            Some(m) => Ok(m.status),
            None => Err(HubError::MessageNotFound { message_id }),
        }
    }

    /// Message sender, or `MessageNotFound` for an unknown identifier.
    pub fn get_message_sender(&self, message_id: u64) -> (r: Result<Address, HubError>)
        ensures
            self.spec_messages().contains_key(message_id) ==> r == Ok::<Address, HubError>(
                self.spec_messages()[message_id].sender,
            ),
            !self.spec_messages().contains_key(message_id) ==> r == Err::<Address, HubError>(
                (HubError::MessageNotFound { message_id }),
            ),
    {
        match self.messages.get(&message_id) {
            Some(m) => Ok(m.sender),
            None => Err(HubError::MessageNotFound { message_id }),
        }
    }

    /// Assigned relayer (zero until relayed), or `MessageNotFound`.
    pub fn get_message_relayer(&self, message_id: u64) -> (r: Result<Address, HubError>)
        ensures
            self.spec_messages().contains_key(message_id) ==> r == Ok::<Address, HubError>(
                self.spec_messages()[message_id].relayer,
            ),
            !self.spec_messages().contains_key(message_id) ==> r == Err::<Address, HubError>(
                (HubError::MessageNotFound { message_id }),
            ),
    {
        match self.messages.get(&message_id) {
            Some(m) => Ok(m.relayer),
            None => Err(HubError::MessageNotFound { message_id }),
        }
    }

    /// Fee paid at submission, or `MessageNotFound`.
    pub fn get_message_fee(&self, message_id: u64) -> (r: Result<u128, HubError>)
        ensures
            self.spec_messages().contains_key(message_id) ==> r == Ok::<u128, HubError>(
                self.spec_messages()[message_id].fee_paid,
            ),
            !self.spec_messages().contains_key(message_id) ==> r == Err::<u128, HubError>(
                (HubError::MessageNotFound { message_id }),
            ),
    {
        match self.messages.get(&message_id) {
            Some(m) => Ok(m.fee_paid),
            None => Err(HubError::MessageNotFound { message_id }),
        }
    }

    /// Destination chain identifier, or `MessageNotFound`.
    pub fn get_message_destination(&self, message_id: u64) -> (r: Result<u32, HubError>)
        ensures
            self.spec_messages().contains_key(message_id) ==> r == Ok::<u32, HubError>(
                self.spec_messages()[message_id].destination_chain,
            ),
            !self.spec_messages().contains_key(message_id) ==> r == Err::<u32, HubError>(
                (HubError::MessageNotFound { message_id }),
            ),
    {
        match self.messages.get(&message_id) {
            Some(m) => Ok(m.destination_chain),
            None => Err(HubError::MessageNotFound { message_id }),
        }
    }

    /// Base fee required to send to a chain (zero for an unknown
    /// chain, enabled or not).
    pub fn calculate_fee(&self, destination_chain: u32) -> (r: u128)
        ensures
            r == self.chain_at(destination_chain).base_fee,
    {
        self.chain_config(destination_chain).base_fee
    }

    /// Whether the address is an active relayer.
    pub fn is_active_relayer(&self, relayer: Address) -> (r: bool)
        ensures
            r == self.relayer_at(relayer).active,
    {
        self.relayer_info(relayer).active
    }

    /// Current stake of a relayer (zero for an unknown address).
    pub fn relayer_stake(&self, relayer: Address) -> (r: u128)
        ensures
            r == self.relayer_at(relayer).stake,
    {
        self.relayer_info(relayer).stake
    }

    /// Number of messages ever submitted (the last assigned id).
    pub fn message_count(&self) -> (r: u64)
        ensures
            r == self.spec_nonce(),
    {
        self.message_nonce
    }

    /// The hub owner (zero until initialization).
    pub fn owner(&self) -> (r: Address)
        ensures
            r == self.spec_owner(),
    {
        self.owner
    }

    /// Minimum stake required of a registering relayer.
    pub fn min_stake(&self) -> (r: u128)
        ensures
            r == self.spec_min_stake(),
    {
        self.min_stake
    }

    /// Length of the challenge window.
    pub fn challenge_period(&self) -> (r: u64)
        ensures
            r == self.spec_challenge_period(),
    {
        self.challenge_period
    }

    /// Current protocol treasury balance.
    pub fn protocol_fee_balance(&self) -> (r: u128)
        ensures
            r == self.spec_treasury(),
    {
        self.protocol_fee_balance
    }

    /// Enabled flag, receiver address and base fee of a chain.
    pub fn chain_info(&self, chain_id: u32) -> (r: (bool, Address, u128))
        ensures
            r == (
                self.chain_at(chain_id).enabled,
                self.chain_at(chain_id).receiver,
                self.chain_at(chain_id).base_fee,
            ),
    {
        let cfg = self.chain_config(chain_id);
        (cfg.enabled, cfg.receiver, cfg.base_fee)
    }

    /// Challenge deadline for a message: `MessageNotFound` for an
    /// unknown identifier, zero for a message whose window has not
    /// been opened yet (still pending).
    pub fn challenge_deadline(&self, message_id: u64) -> (r: Result<u64, HubError>)
        ensures
            !self.spec_messages().contains_key(message_id) ==> r == Err::<u64, HubError>(
                (HubError::MessageNotFound { message_id }),
            ),
            self.spec_messages().contains_key(message_id) && self.spec_challenges().contains_key(
                message_id,
            ) ==> r == Ok::<u64, HubError>(self.spec_challenges()[message_id].deadline),
            self.spec_messages().contains_key(message_id) && !self.spec_challenges().contains_key(
                message_id,
            ) ==> r == Ok::<u64, HubError>(0u64),
    {
        if self.messages.get(&message_id).is_none() {
            return Err(HubError::MessageNotFound { message_id });
        }
        match self.challenges.get(&message_id) {
            Some(ch) => Ok(ch.deadline),
            None => Ok(0),
        }
    }
}

/// The total stake of an empty ledger is zero.
proof fn lemma_stake_sum_empty(m: Map<u64, RelayerInfo>)
    requires
        m.dom() == Set::<u64>::empty(),
    ensures
        stake_sum(m) == 0,
{
}

} // verus!

