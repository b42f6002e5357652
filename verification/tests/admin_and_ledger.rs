//! Initialization, ownership, chain registry, relayer staking,
//! treasury withdrawal, nonce assignment, query idempotence, and fund
//! conservation across a mixed scenario.

use message_hub::{HubError, MessageHub, Status};

const OWNER: u64 = 7;
const RELAYER: u64 = 5;
const OTHER_RELAYER: u64 = 6;
const SENDER: u64 = 3;
const CHALLENGER: u64 = 11;
const TARGET: u64 = 9;
const RECEIVER: u64 = 42;

fn valid_proof() -> Vec<u8> {
    vec![1u8; 65]
}

fn initialized() -> MessageHub {
    let mut hub = MessageHub::new();
    assert_eq!(hub.initialize(100, 300, OWNER), Ok(()));
    hub
}

#[test]
fn initialize_only_once() {
    let mut hub = initialized();
    assert_eq!(hub.owner(), OWNER);
    assert_eq!(hub.min_stake(), 100);
    assert_eq!(hub.challenge_period(), 300);
    assert_eq!(hub.initialize(1, 1, OWNER), Err(HubError::AlreadyInitialized));
    assert_eq!(hub.initialize(1, 1, SENDER), Err(HubError::AlreadyInitialized));
    assert_eq!(hub.min_stake(), 100);
}

#[test]
fn add_chain_owner_only() {
    let mut hub = initialized();
    assert_eq!(
        hub.add_chain(1, RECEIVER, 10, SENDER),
        Err(HubError::Unauthorized { caller: SENDER })
    );
    assert_eq!(hub.add_chain(1, 0, 10, OWNER), Err(HubError::ZeroAddress));
    assert_eq!(hub.add_chain(1, RECEIVER, 10, OWNER), Ok(()));
    assert_eq!(hub.chain_info(1), (true, RECEIVER, 10));
    assert_eq!(hub.calculate_fee(1), 10);
}

#[test]
fn add_chain_overwrites_configuration() {
    let mut hub = initialized();
    assert_eq!(hub.add_chain(1, RECEIVER, 10, OWNER), Ok(()));
    assert_eq!(hub.add_chain(1, 77, 25, OWNER), Ok(()));
    assert_eq!(hub.chain_info(1), (true, 77, 25));
}

#[test]
fn disable_chain_blocks_sends_but_not_in_flight() {
    let mut hub = initialized();
    assert_eq!(hub.add_chain(1, RECEIVER, 10, OWNER), Ok(()));
    assert_eq!(hub.register_relayer(RELAYER, 100), Ok(()));
    assert_eq!(hub.send_message(1, TARGET, vec![], SENDER, 10, 50), Ok(1));
    assert_eq!(hub.disable_chain(1, SENDER), Err(HubError::Unauthorized { caller: SENDER }));
    assert_eq!(hub.disable_chain(1, OWNER), Ok(()));
    assert_eq!(hub.chain_info(1), (false, RECEIVER, 10));
    assert_eq!(
        hub.send_message(1, TARGET, vec![], SENDER, 10, 51),
        Err(HubError::ChainNotSupported { chain_id: 1 })
    );
    // the pending message still confirms and finalizes
    assert_eq!(hub.confirm_delivery(1, valid_proof(), RELAYER, 100, true), Ok(()));
    assert_eq!(hub.finalize_message(1, 401), Ok(()));
    assert_eq!(hub.get_message_status(1), Ok(Status::Confirmed));
}

#[test]
fn send_fee_too_low() {
    let mut hub = initialized();
    assert_eq!(hub.add_chain(1, RECEIVER, 10, OWNER), Ok(()));
    assert_eq!(
        hub.send_message(1, TARGET, vec![], SENDER, 9, 50),
        Err(HubError::InsufficientFee { required: 10, provided: 9 })
    );
    assert_eq!(hub.message_count(), 0);
}

#[test]
fn send_unknown_chain_not_supported() {
    let mut hub = initialized();
    assert_eq!(
        hub.send_message(2, TARGET, vec![], SENDER, 10, 50),
        Err(HubError::ChainNotSupported { chain_id: 2 })
    );
}

#[test]
fn message_ids_strictly_increase_from_one() {
    let mut hub = initialized();
    assert_eq!(hub.add_chain(1, RECEIVER, 10, OWNER), Ok(()));
    assert_eq!(hub.message_count(), 0);
    assert_eq!(hub.send_message(1, TARGET, vec![1], SENDER, 10, 50), Ok(1));
    assert_eq!(hub.send_message(1, TARGET, vec![2], SENDER, 12, 51), Ok(2));
    // a failed send consumes no identifier
    assert_eq!(
        hub.send_message(1, TARGET, vec![], SENDER, 9, 52),
        Err(HubError::InsufficientFee { required: 10, provided: 9 })
    );
    assert_eq!(hub.send_message(1, TARGET, vec![3], SENDER, 10, 53), Ok(3));
    assert_eq!(hub.message_count(), 3);
    assert_eq!(hub.get_message_fee(2), Ok(12));
}

#[test]
fn message_getters_and_not_found() {
    let mut hub = initialized();
    assert_eq!(hub.add_chain(4, RECEIVER, 1, OWNER), Ok(()));
    assert_eq!(hub.send_message(4, TARGET, vec![0xEE], SENDER, 5, 123), Ok(1));
    assert_eq!(hub.get_message_sender(1), Ok(SENDER));
    assert_eq!(hub.get_message_destination(1), Ok(4));
    assert_eq!(hub.get_message_fee(1), Ok(5));
    assert_eq!(hub.get_message_relayer(1), Ok(0));
    assert_eq!(hub.get_message_status(2), Err(HubError::MessageNotFound { message_id: 2 }));
    assert_eq!(hub.get_message_sender(2), Err(HubError::MessageNotFound { message_id: 2 }));
    assert_eq!(hub.get_message_relayer(2), Err(HubError::MessageNotFound { message_id: 2 }));
    assert_eq!(hub.get_message_fee(2), Err(HubError::MessageNotFound { message_id: 2 }));
    assert_eq!(hub.get_message_destination(2), Err(HubError::MessageNotFound { message_id: 2 }));
    assert_eq!(hub.challenge_deadline(2), Err(HubError::MessageNotFound { message_id: 2 }));
}

#[test]
fn register_below_minimum_rejected() {
    let mut hub = initialized();
    assert_eq!(
        hub.register_relayer(RELAYER, 99),
        Err(HubError::InsufficientStake { required: 100, provided: 99 })
    );
    assert!(!hub.is_active_relayer(RELAYER));
    assert_eq!(hub.relayer_stake(RELAYER), 0);
}

#[test]
fn register_tops_up_existing_stake() {
    let mut hub = initialized();
    assert_eq!(hub.register_relayer(RELAYER, 100), Ok(()));
    assert_eq!(hub.register_relayer(RELAYER, 150), Ok(()));
    assert_eq!(hub.relayer_stake(RELAYER), 250);
    assert!(hub.is_active_relayer(RELAYER));
}

#[test]
fn exit_returns_stake_and_deactivates() {
    let mut hub = initialized();
    assert_eq!(hub.register_relayer(RELAYER, 120), Ok(()));
    assert_eq!(hub.exit_relayer(RELAYER, true), Ok(()));
    assert!(!hub.is_active_relayer(RELAYER));
    assert_eq!(hub.relayer_stake(RELAYER), 0);
    assert_eq!(hub.exit_relayer(RELAYER, true), Err(HubError::RelayerNotActive { relayer: RELAYER }));
}

#[test]
fn exit_transfer_failure_rolls_back() {
    let mut hub = initialized();
    assert_eq!(hub.register_relayer(RELAYER, 120), Ok(()));
    assert_eq!(hub.exit_relayer(RELAYER, false), Err(HubError::TransferFailed));
    assert!(hub.is_active_relayer(RELAYER));
    assert_eq!(hub.relayer_stake(RELAYER), 120);
}

#[test]
fn withdraw_more_than_balance_fails() {
    let mut hub = initialized();
    assert_eq!(hub.add_chain(1, RECEIVER, 10, OWNER), Ok(()));
    assert_eq!(hub.send_message(1, TARGET, vec![], SENDER, 10, 50), Ok(1));
    assert_eq!(hub.protocol_fee_balance(), 10);
    assert_eq!(
        hub.withdraw_fees(11, OWNER, true),
        Err(HubError::InsufficientFee { required: 11, provided: 10 })
    );
    assert_eq!(hub.protocol_fee_balance(), 10);
    assert_eq!(hub.withdraw_fees(10, SENDER, true), Err(HubError::Unauthorized { caller: SENDER }));
    assert_eq!(hub.withdraw_fees(4, OWNER, false), Err(HubError::TransferFailed));
    assert_eq!(hub.protocol_fee_balance(), 10);
    assert_eq!(hub.withdraw_fees(4, OWNER, true), Ok(()));
    assert_eq!(hub.protocol_fee_balance(), 6);
}

#[test]
fn transfer_ownership_checks() {
    let mut hub = initialized();
    assert_eq!(
        hub.transfer_ownership(SENDER, SENDER),
        Err(HubError::Unauthorized { caller: SENDER })
    );
    assert_eq!(hub.transfer_ownership(0, OWNER), Err(HubError::ZeroAddress));
    assert_eq!(hub.transfer_ownership(SENDER, OWNER), Ok(()));
    assert_eq!(hub.owner(), SENDER);
    assert_eq!(
        hub.add_chain(1, RECEIVER, 10, OWNER),
        Err(HubError::Unauthorized { caller: OWNER })
    );
    assert_eq!(hub.add_chain(1, RECEIVER, 10, SENDER), Ok(()));
}

#[test]
fn repeated_queries_return_identical_results() {
    let mut hub = initialized();
    assert_eq!(hub.add_chain(1, RECEIVER, 10, OWNER), Ok(()));
    assert_eq!(hub.register_relayer(RELAYER, 100), Ok(()));
    assert_eq!(hub.send_message(1, TARGET, vec![7], SENDER, 10, 50), Ok(1));
    assert_eq!(hub.confirm_delivery(1, valid_proof(), RELAYER, 1000, true), Ok(()));
    assert_eq!(hub.get_message_status(1), hub.get_message_status(1));
    assert_eq!(hub.get_message_sender(1), hub.get_message_sender(1));
    assert_eq!(hub.get_message_relayer(1), hub.get_message_relayer(1));
    assert_eq!(hub.get_message_fee(1), hub.get_message_fee(1));
    assert_eq!(hub.get_message_destination(1), hub.get_message_destination(1));
    assert_eq!(hub.calculate_fee(1), hub.calculate_fee(1));
    assert_eq!(hub.is_active_relayer(RELAYER), hub.is_active_relayer(RELAYER));
    assert_eq!(hub.relayer_stake(RELAYER), hub.relayer_stake(RELAYER));
    assert_eq!(hub.message_count(), hub.message_count());
    assert_eq!(hub.owner(), hub.owner());
    assert_eq!(hub.min_stake(), hub.min_stake());
    assert_eq!(hub.challenge_period(), hub.challenge_period());
    assert_eq!(hub.protocol_fee_balance(), hub.protocol_fee_balance());
    assert_eq!(hub.chain_info(1), hub.chain_info(1));
    assert_eq!(hub.challenge_deadline(1), hub.challenge_deadline(1));
}

/// Fund conservation over a mixed run: what the hub still holds
/// (treasury plus stakes) always equals deposits minus payouts.
#[test]
fn funds_conserved_across_scenario() {
    let mut hub = initialized();
    let mut deposited: u128 = 0;
    let mut paid_out: u128 = 0;

    let held = |hub: &MessageHub, r1: u64, r2: u64| -> u128 {
        hub.protocol_fee_balance() + hub.relayer_stake(r1) + hub.relayer_stake(r2)
    };

    assert_eq!(hub.add_chain(1, RECEIVER, 10, OWNER), Ok(()));
    assert_eq!(hub.register_relayer(RELAYER, 100), Ok(()));
    deposited += 100;
    assert_eq!(hub.register_relayer(OTHER_RELAYER, 300), Ok(()));
    deposited += 300;
    assert_eq!(hub.send_message(1, TARGET, vec![], SENDER, 10, 50), Ok(1));
    deposited += 10;
    assert_eq!(hub.send_message(1, TARGET, vec![], SENDER, 25, 51), Ok(2));
    deposited += 25;
    assert_eq!(held(&hub, RELAYER, OTHER_RELAYER), deposited - paid_out);

    // message 1 confirmed by RELAYER: reward 8 paid out
    assert_eq!(hub.confirm_delivery(1, valid_proof(), RELAYER, 1000, true), Ok(()));
    paid_out += 8;
    assert_eq!(held(&hub, RELAYER, OTHER_RELAYER), deposited - paid_out);

    // message 2 confirmed by OTHER_RELAYER: reward 25*8000/10000 = 20
    assert_eq!(hub.confirm_delivery(2, valid_proof(), OTHER_RELAYER, 1000, true), Ok(()));
    paid_out += 20;
    assert_eq!(held(&hub, RELAYER, OTHER_RELAYER), deposited - paid_out);

    // RELAYER slashed: stake 100 seized, challenger paid 10
    assert_eq!(hub.challenge_message(1, valid_proof(), CHALLENGER, 1200, true), Ok(()));
    paid_out += 10;
    assert_eq!(held(&hub, RELAYER, OTHER_RELAYER), deposited - paid_out);

    // message 2 finalizes; no value moves
    assert_eq!(hub.finalize_message(2, 1301), Ok(()));
    assert_eq!(held(&hub, RELAYER, OTHER_RELAYER), deposited - paid_out);

    // OTHER_RELAYER exits with its full stake
    assert_eq!(hub.exit_relayer(OTHER_RELAYER, true), Ok(()));
    paid_out += 300;
    assert_eq!(held(&hub, RELAYER, OTHER_RELAYER), deposited - paid_out);

    // the owner withdraws part of the treasury
    assert_eq!(hub.withdraw_fees(50, OWNER, true), Ok(()));
    paid_out += 50;
    assert_eq!(held(&hub, RELAYER, OTHER_RELAYER), deposited - paid_out);
}
