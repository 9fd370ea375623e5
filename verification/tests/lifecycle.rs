use std::collections::HashMap;
use time_capsule::address::{capsule_address, escrow_address, token_program_id, Address};
use time_capsule::capsule::{CapsulePayload, CapsuleType, ErrorCode, TimeCapsule, TimeCapsuleManager};
use time_capsule::codec::{decode_payload, serialize_payload, MessagePayload};
use time_capsule::escrow::{Authorization, TokenTransfer, TransferError, TransferOutcome};
use time_capsule::layerzero::{
    send_message, DestinationAddress, LayerZeroEndpoint, LayerZeroMessageSent, RelayError,
};
use time_capsule::program::{
    create_text_capsule, create_token_capsule, initialize, notify, plan_token_capsule,
    plan_unlock, report_unlock, unlock_capsule, CapsuleCreatedEvent, CapsuleUnlockedEvent,
    CreateTextCapsule, CreateTokenCapsule, Initialize, UnlockCapsule, UnlockRecord,
};

const NOW: i64 = 1_700_000_000;
const CHAIN: u16 = 40161;
const DEST: [u8; 32] = [0x5a; 32];

fn owner() -> Address {
    Address::new([1u8; 32])
}

fn stranger() -> Address {
    Address::new([2u8; 32])
}

fn mint() -> Address {
    Address::new([3u8; 32])
}

fn authority() -> Address {
    Address::new([4u8; 32])
}

fn endpoint() -> LayerZeroEndpoint {
    LayerZeroEndpoint { account: Address::new([5u8; 32]) }
}

fn key_of(owner: &Address) -> Address {
    capsule_address(owner).unwrap().address
}

fn escrow_of(owner: &Address) -> Address {
    escrow_address(&key_of(owner)).unwrap().address
}

fn manager(count: u64) -> TimeCapsuleManager {
    TimeCapsuleManager { authority: authority(), capsule_count: count }
}

fn text_accounts() -> CreateTextCapsule {
    CreateTextCapsule {
        time_capsule_manager: manager(0),
        time_capsule: None,
        payer: owner(),
    }
}

fn token_accounts() -> CreateTokenCapsule {
    CreateTokenCapsule {
        time_capsule_manager: manager(0),
        time_capsule: None,
        payer: owner(),
        mint: mint(),
    }
}

fn text_capsule(content: &str, release: i64) -> TimeCapsule {
    let mut ctx = text_accounts();
    create_text_capsule(&mut ctx, String::from(content), release, NOW, CHAIN, DEST).unwrap();
    ctx.time_capsule.unwrap()
}

fn token_capsule(amount: u64, release: i64) -> TimeCapsule {
    let mut ctx = token_accounts();
    create_token_capsule(&mut ctx, amount, release, NOW, CHAIN, DEST, TransferOutcome::Completed)
        .unwrap();
    ctx.time_capsule.unwrap()
}

fn unlock_accounts(capsule: TimeCapsule, payer: Address) -> UnlockCapsule {
    UnlockCapsule {
        time_capsule: capsule,
        payer,
        capsule_token_account: escrow_of(&owner()),
        token_program: Some(token_program_id()),
        layerzero_endpoint: None,
    }
}

/// Balances of one asset, by holder, as a host would keep them.
fn apply(balances: &mut HashMap<Address, u64>, t: &TokenTransfer) -> TransferOutcome {
    let have = *balances.get(&t.from).unwrap_or(&0);
    if have < t.amount {
        return TransferOutcome::Failed(TransferError { code: 1 });
    }
    balances.insert(t.from, have - t.amount);
    let there = *balances.get(&t.to).unwrap_or(&0);
    balances.insert(t.to, there + t.amount);
    TransferOutcome::Completed
}

#[test]
fn initialize_sets_up_the_manager_once() {
    let mut ctx = Initialize { time_capsule_manager: None, authority: authority() };
    assert_eq!(initialize(&mut ctx), Ok(()));
    assert_eq!(
        ctx.time_capsule_manager,
        Some(TimeCapsuleManager { authority: authority(), capsule_count: 0 })
    );
    ctx.time_capsule_manager = Some(manager(7));
    ctx.authority = stranger();
    assert_eq!(initialize(&mut ctx), Err(ErrorCode::ManagerAlreadyInitialized));
    assert_eq!(ctx.time_capsule_manager, Some(manager(7)));
}

#[test]
fn text_capsule_is_created_locked() {
    let mut ctx = text_accounts();
    ctx.time_capsule_manager.capsule_count = 41;
    let event =
        create_text_capsule(&mut ctx, String::from("hello"), NOW + 100, NOW, CHAIN, DEST).unwrap();
    assert_eq!(
        event,
        CapsuleCreatedEvent {
            capsule_id: key_of(&owner()),
            owner: owner(),
            release_timestamp: NOW + 100,
            capsule_type: CapsuleType::Text,
        }
    );
    assert_eq!(ctx.time_capsule_manager, manager(42));
    assert_eq!(
        ctx.time_capsule,
        Some(TimeCapsule {
            owner: owner(),
            capsule_type: CapsuleType::Text,
            release_timestamp: NOW + 100,
            created_at: NOW,
            is_unlocked: false,
            unlocked_at: None,
            content: String::from("hello"),
            token_mint: None,
            token_amount: None,
            destination_chain_id: CHAIN,
            destination_address: DEST,
        })
    );
}

#[test]
fn release_time_must_lie_after_creation() {
    for release in [NOW, NOW - 1, i64::MIN] {
        let mut ctx = text_accounts();
        let before = ctx.clone();
        assert_eq!(
            create_text_capsule(&mut ctx, String::from("x"), release, NOW, CHAIN, DEST),
            Err(ErrorCode::InvalidReleaseTime)
        );
        assert_eq!(ctx, before);
        let mut ctx = token_accounts();
        let before = ctx.clone();
        assert_eq!(plan_token_capsule(&ctx, 5, release, NOW), Err(ErrorCode::InvalidReleaseTime));
        assert_eq!(
            create_token_capsule(&mut ctx, 5, release, NOW, CHAIN, DEST, TransferOutcome::Completed),
            Err(ErrorCode::InvalidReleaseTime)
        );
        assert_eq!(ctx, before);
    }
    let created = text_capsule("x", NOW + 1);
    assert!(created.release_timestamp > created.created_at);
    let created = token_capsule(5, i64::MAX);
    assert!(created.release_timestamp > created.created_at);
}

#[test]
fn reserved_kind_is_refused() {
    assert_eq!(
        TimeCapsule::create(owner(), CapsulePayload::NFT, NOW + 100, NOW, CHAIN, DEST),
        Err(ErrorCode::UnsupportedCapsuleKind)
    );
    // the release time is looked at first
    assert_eq!(
        TimeCapsule::create(owner(), CapsulePayload::NFT, NOW, NOW, CHAIN, DEST),
        Err(ErrorCode::InvalidReleaseTime)
    );
    assert_eq!(CapsuleType::Text.code(), 0);
    assert_eq!(CapsuleType::Token.code(), 1);
    assert_eq!(CapsuleType::NFT.code(), 2);
}

#[test]
fn create_makes_the_record_of_each_kind() {
    let text = TimeCapsule::create(
        owner(),
        CapsulePayload::Text(String::from("hi")),
        NOW + 1,
        NOW,
        CHAIN,
        DEST,
    )
    .unwrap();
    assert_eq!(text, text_capsule("hi", NOW + 1));
    let token = TimeCapsule::create(
        owner(),
        CapsulePayload::Token { mint: mint(), amount: 9 },
        NOW + 1,
        NOW,
        CHAIN,
        DEST,
    )
    .unwrap();
    assert_eq!(token, token_capsule(9, NOW + 1));
    assert_eq!(token.capsule_type, CapsuleType::Token);
    assert_eq!(token.token_mint, Some(mint()));
    assert_eq!(token.token_amount, Some(9));
    assert_eq!(token.content, "");
}

#[test]
fn second_creation_for_an_owner_is_refused() {
    let mut ctx = text_accounts();
    create_text_capsule(&mut ctx, String::from("first"), NOW + 100, NOW, CHAIN, DEST).unwrap();
    let before = ctx.clone();
    assert_eq!(
        create_text_capsule(&mut ctx, String::from("second"), NOW + 200, NOW + 1, CHAIN, DEST),
        Err(ErrorCode::CapsuleAlreadyExists)
    );
    assert_eq!(ctx, before);
    assert_eq!(ctx.time_capsule_manager.capsule_count, 1);

    let mut ctx = token_accounts();
    ctx.time_capsule = before.time_capsule.clone();
    let held = ctx.clone();
    assert_eq!(plan_token_capsule(&ctx, 5, NOW + 100, NOW), Err(ErrorCode::CapsuleAlreadyExists));
    // an occupied address is refused before the release time is looked at
    assert_eq!(plan_token_capsule(&ctx, 5, NOW, NOW), Err(ErrorCode::CapsuleAlreadyExists));
    assert_eq!(
        create_token_capsule(&mut ctx, 5, NOW + 100, NOW, CHAIN, DEST, TransferOutcome::Completed),
        Err(ErrorCode::CapsuleAlreadyExists)
    );
    assert_eq!(ctx, held);
}

#[test]
fn token_capsule_asks_for_the_deposit_first() {
    let mut ctx = token_accounts();
    let plan = plan_token_capsule(&ctx, 1000, NOW + 100, NOW).unwrap();
    assert_eq!(
        plan,
        TokenTransfer {
            mint: mint(),
            amount: 1000,
            from: owner(),
            to: escrow_of(&owner()),
            authority: Authorization::Holder(owner()),
        }
    );
    assert_eq!(ctx, token_accounts());
    let event =
        create_token_capsule(&mut ctx, 1000, NOW + 100, NOW, CHAIN, DEST, TransferOutcome::Completed)
            .unwrap();
    assert_eq!(
        event,
        CapsuleCreatedEvent {
            capsule_id: key_of(&owner()),
            owner: owner(),
            release_timestamp: NOW + 100,
            capsule_type: CapsuleType::Token,
        }
    );
    assert_eq!(ctx.time_capsule_manager.capsule_count, 1);
    let capsule = ctx.time_capsule.unwrap();
    assert_eq!(capsule.token_amount, Some(1000));
    assert_eq!(capsule.token_mint, Some(mint()));
    assert!(!capsule.is_unlocked);
}

#[test]
fn failed_deposit_creates_nothing() {
    for outcome in [TransferOutcome::NotAttempted, TransferOutcome::Failed(TransferError { code: 9 })] {
        let mut ctx = token_accounts();
        assert_eq!(
            create_token_capsule(&mut ctx, 1000, NOW + 100, NOW, CHAIN, DEST, outcome),
            Err(ErrorCode::TransferFailed)
        );
        assert_eq!(ctx, token_accounts());
    }
}

#[test]
fn scenario_text_capsule_waits_for_its_release_time() {
    let capsule = text_capsule("hello", NOW + 100);
    let mut ctx = unlock_accounts(capsule, owner());
    ctx.layerzero_endpoint = Some(endpoint());
    let before = ctx.clone();

    assert_eq!(plan_unlock(&ctx, NOW + 50), Err(ErrorCode::CapsuleNotReady));
    assert_eq!(
        unlock_capsule(&mut ctx, NOW + 50, TransferOutcome::NotAttempted),
        Err(ErrorCode::CapsuleNotReady)
    );
    assert_eq!(ctx, before);
    assert_eq!(plan_unlock(&ctx, NOW + 99), Err(ErrorCode::CapsuleNotReady));

    // a release time that has just come is ready
    assert_eq!(plan_unlock(&ctx, NOW + 100), Ok(None));
    let receipt = unlock_capsule(&mut ctx, NOW + 100, TransferOutcome::NotAttempted).unwrap();
    assert!(ctx.time_capsule.is_unlocked);
    assert_eq!(ctx.time_capsule.unlocked_at, Some(NOW + 100));
    assert_eq!(ctx.time_capsule.content, "hello");

    let (message, record) = receipt.relay.clone().unwrap();
    assert_eq!(message.endpoint, endpoint().account);
    assert_eq!(message.chain_id, CHAIN);
    assert_eq!(message.address, DEST);
    assert_eq!(message.payload.len(), 224);
    assert_eq!(message.payload[127], 0);
    assert_eq!(&message.payload[96..127], &[0u8; 31][..]);
    assert_eq!(message.payload[191], 5);
    assert_eq!(&message.payload[192..197], b"hello");
    assert_eq!(&message.payload[197..224], &[0u8; 27][..]);
    assert_eq!(
        record,
        LayerZeroMessageSent { destination_chain_id: CHAIN, payload_length: 224, timestamp: NOW + 100 }
    );
    let decoded = decode_payload(&message.payload).unwrap();
    assert_eq!(decoded.capsule_type, 0);
    assert_eq!(decoded.message, b"hello".to_vec());
    assert_eq!(decoded.unlock_timestamp, (NOW + 100) as u64);
    assert_eq!(decoded.creation_timestamp, NOW as u64);
    assert_eq!(&decoded.owner[..], &owner().bytes[0..20]);
}

#[test]
fn scenario_stranger_cannot_unlock_a_token_capsule() {
    let mut balances: HashMap<Address, u64> = HashMap::new();
    balances.insert(owner(), 5000);
    let mut create = token_accounts();
    let deposit = plan_token_capsule(&create, 1000, NOW + 100, NOW).unwrap();
    let outcome = apply(&mut balances, &deposit);
    create_token_capsule(&mut create, 1000, NOW + 100, NOW, CHAIN, DEST, outcome).unwrap();
    assert_eq!(balances[&escrow_of(&owner())], 1000);
    assert_eq!(balances[&owner()], 4000);

    let mut ctx = unlock_accounts(create.time_capsule.clone().unwrap(), stranger());
    let before = ctx.clone();
    assert_eq!(plan_unlock(&ctx, NOW + 100), Err(ErrorCode::NotCapsuleOwner));
    assert_eq!(
        unlock_capsule(&mut ctx, NOW + 100, TransferOutcome::Completed),
        Err(ErrorCode::NotCapsuleOwner)
    );
    assert_eq!(ctx, before);
    assert!(!ctx.time_capsule.is_unlocked);
    assert_eq!(balances[&escrow_of(&owner())], 1000);
    assert_eq!(balances[&owner()], 4000);
}

#[test]
fn scenario_wrong_escrow_account_is_refused_before_any_transfer() {
    let mut ctx = unlock_accounts(token_capsule(1000, NOW + 100), owner());
    ctx.capsule_token_account = escrow_of(&stranger());
    let before = ctx.clone();
    assert_eq!(plan_unlock(&ctx, NOW + 100), Err(ErrorCode::InvalidEscrowAddress));
    assert_eq!(
        unlock_capsule(&mut ctx, NOW + 100, TransferOutcome::Completed),
        Err(ErrorCode::InvalidEscrowAddress)
    );
    assert_eq!(ctx, before);
    // the capsule's own address is not its escrow account
    ctx.capsule_token_account = key_of(&owner());
    assert_eq!(plan_unlock(&ctx, NOW + 100), Err(ErrorCode::InvalidEscrowAddress));
    ctx.capsule_token_account = owner();
    assert_eq!(plan_unlock(&ctx, NOW + 100), Err(ErrorCode::InvalidEscrowAddress));
    ctx.capsule_token_account = escrow_of(&owner());
    assert!(plan_unlock(&ctx, NOW + 100).unwrap().is_some());
}

#[test]
fn scenario_failed_relay_does_not_undo_the_unlock() {
    let mut ctx = unlock_accounts(text_capsule("hello", NOW + 100), owner());
    ctx.layerzero_endpoint = Some(endpoint());
    let receipt = unlock_capsule(&mut ctx, NOW + 200, TransferOutcome::NotAttempted).unwrap();
    let report = report_unlock(&receipt, Err(RelayError { code: 77 }));
    assert_eq!(report.delivery, Err(ErrorCode::RelayDeliveryFailed));
    let unlocked = CapsuleUnlockedEvent {
        capsule_id: key_of(&owner()),
        owner: owner(),
        unlocked_at: NOW + 200,
        destination_chain_id: CHAIN,
    };
    assert_eq!(report.unlocked, unlocked);
    assert_eq!(
        report.audit,
        vec![
            UnlockRecord::MessageSent(LayerZeroMessageSent {
                destination_chain_id: CHAIN,
                payload_length: 224,
                timestamp: NOW + 200,
            }),
            UnlockRecord::CapsuleUnlocked(unlocked),
            UnlockRecord::RelayFailed { destination_chain_id: CHAIN, error: RelayError { code: 77 } },
        ]
    );
    assert!(ctx.time_capsule.is_unlocked);
    assert_eq!(ctx.time_capsule.unlocked_at, Some(NOW + 200));
    assert_eq!(plan_unlock(&ctx, NOW + 300), Err(ErrorCode::CapsuleAlreadyUnlocked));
}

#[test]
fn delivered_relay_is_reported() {
    let mut ctx = unlock_accounts(text_capsule("hello", NOW + 100), owner());
    ctx.layerzero_endpoint = Some(endpoint());
    let receipt = unlock_capsule(&mut ctx, NOW + 200, TransferOutcome::NotAttempted).unwrap();
    let report = report_unlock(&receipt, Ok(()));
    assert_eq!(report.delivery, Ok(()));
    assert_eq!(report.unlocked, receipt.unlocked);
    assert_eq!(
        report.audit,
        vec![UnlockRecord::MessageSent(LayerZeroMessageSent {
            destination_chain_id: CHAIN,
            payload_length: 224,
            timestamp: NOW + 200,
        })]
    );
}

#[test]
fn without_an_endpoint_the_unlock_is_recorded_locally() {
    let mut ctx = unlock_accounts(text_capsule("hello", NOW + 100), owner());
    let receipt = unlock_capsule(&mut ctx, NOW + 100, TransferOutcome::NotAttempted).unwrap();
    assert_eq!(receipt.relay, None);
    let unlocked = CapsuleUnlockedEvent {
        capsule_id: key_of(&owner()),
        owner: owner(),
        unlocked_at: NOW + 100,
        destination_chain_id: CHAIN,
    };
    assert_eq!(receipt.unlocked, unlocked);
    for delivery in [Ok(()), Err(RelayError { code: 1 })] {
        let report = report_unlock(&receipt, delivery);
        assert_eq!(report.delivery, Ok(()));
        assert_eq!(report.audit, vec![UnlockRecord::CapsuleUnlocked(unlocked)]);
    }
}

#[test]
fn unlock_succeeds_once() {
    let mut ctx = unlock_accounts(text_capsule("hello", NOW + 100), owner());
    assert!(unlock_capsule(&mut ctx, NOW + 100, TransferOutcome::NotAttempted).is_ok());
    let after = ctx.clone();
    for later in [NOW + 100, NOW + 101, i64::MAX, NOW] {
        assert_eq!(
            unlock_capsule(&mut ctx, later, TransferOutcome::Completed),
            Err(ErrorCode::CapsuleAlreadyUnlocked)
        );
        assert_eq!(ctx, after);
    }
    // whoever asks
    ctx.payer = stranger();
    assert_eq!(plan_unlock(&ctx, NOW + 500), Err(ErrorCode::CapsuleAlreadyUnlocked));
    assert_eq!(ctx.time_capsule.unlocked_at, Some(NOW + 100));
}

#[test]
fn unlock_returns_what_was_escrowed() {
    let mut balances: HashMap<Address, u64> = HashMap::new();
    balances.insert(owner(), 5000);
    balances.insert(stranger(), 10);
    let start = balances.clone();

    let mut create = token_accounts();
    let deposit = plan_token_capsule(&create, 1000, NOW + 100, NOW).unwrap();
    let outcome = apply(&mut balances, &deposit);
    create_token_capsule(&mut create, 1000, NOW + 100, NOW, CHAIN, DEST, outcome).unwrap();
    assert_eq!(balances[&owner()], 4000);

    let mut ctx = unlock_accounts(create.time_capsule.unwrap(), owner());
    let release = plan_unlock(&ctx, NOW + 100).unwrap().unwrap();
    assert_eq!(
        release,
        TokenTransfer {
            mint: mint(),
            amount: 1000,
            from: escrow_of(&owner()),
            to: owner(),
            authority: Authorization::Capsule {
                capsule: key_of(&owner()),
                owner: owner(),
                bump: capsule_address(&owner()).unwrap().bump,
            },
        }
    );
    let outcome = apply(&mut balances, &release);
    unlock_capsule(&mut ctx, NOW + 100, outcome).unwrap();
    assert!(ctx.time_capsule.is_unlocked);
    assert_eq!(balances[&owner()], 5000);
    assert_eq!(balances[&escrow_of(&owner())], 0);
    balances.remove(&escrow_of(&owner()));
    assert_eq!(balances, start);
    // nothing is released a second time
    assert_eq!(plan_unlock(&ctx, NOW + 200), Err(ErrorCode::CapsuleAlreadyUnlocked));
}

#[test]
fn failed_release_leaves_the_capsule_locked() {
    for outcome in [TransferOutcome::NotAttempted, TransferOutcome::Failed(TransferError { code: 3 })] {
        let mut ctx = unlock_accounts(token_capsule(1000, NOW + 100), owner());
        let before = ctx.clone();
        assert_eq!(unlock_capsule(&mut ctx, NOW + 100, outcome), Err(ErrorCode::TransferFailed));
        assert_eq!(ctx, before);
        assert!(!ctx.time_capsule.is_unlocked);
        // and can be unlocked later
        assert!(unlock_capsule(&mut ctx, NOW + 101, TransferOutcome::Completed).is_ok());
        assert_eq!(ctx.time_capsule.unlocked_at, Some(NOW + 101));
    }
}

#[test]
fn token_capsule_needs_the_token_program() {
    let mut ctx = unlock_accounts(token_capsule(1000, NOW + 100), owner());
    ctx.token_program = None;
    assert_eq!(plan_unlock(&ctx, NOW + 100), Err(ErrorCode::MissingTokenAccounts));
    ctx.token_program = Some(stranger());
    assert_eq!(plan_unlock(&ctx, NOW + 100), Err(ErrorCode::InvalidTokenProgram));
    // the program is looked at before the escrow account
    ctx.capsule_token_account = stranger();
    assert_eq!(plan_unlock(&ctx, NOW + 100), Err(ErrorCode::InvalidTokenProgram));
    ctx.token_program = None;
    assert_eq!(
        unlock_capsule(&mut ctx, NOW + 100, TransferOutcome::Completed),
        Err(ErrorCode::MissingTokenAccounts)
    );
    // a text capsule needs neither
    let mut text = unlock_accounts(text_capsule("t", NOW + 100), owner());
    text.token_program = None;
    text.capsule_token_account = stranger();
    assert_eq!(plan_unlock(&text, NOW + 100), Ok(None));
}

#[test]
fn refusals_come_in_order() {
    let mut capsule = token_capsule(1, NOW + 100);
    capsule.is_unlocked = true;
    capsule.unlocked_at = Some(NOW + 100);
    // unlocked, early and by a stranger: unlocked is said first
    let ctx = unlock_accounts(capsule.clone(), stranger());
    assert_eq!(plan_unlock(&ctx, NOW), Err(ErrorCode::CapsuleAlreadyUnlocked));
    capsule.is_unlocked = false;
    capsule.unlocked_at = None;
    let ctx = unlock_accounts(capsule.clone(), stranger());
    assert_eq!(plan_unlock(&ctx, NOW), Err(ErrorCode::CapsuleNotReady));
    assert_eq!(plan_unlock(&ctx, NOW + 100), Err(ErrorCode::NotCapsuleOwner));
}

#[test]
fn token_capsule_is_announced_with_its_kind() {
    let mut ctx = unlock_accounts(token_capsule(1000, NOW + 100), owner());
    ctx.layerzero_endpoint = Some(endpoint());
    let receipt = unlock_capsule(&mut ctx, NOW + 100, TransferOutcome::Completed).unwrap();
    let (message, record) = receipt.relay.unwrap();
    assert_eq!(message.payload.len(), 192);
    assert_eq!(message.payload[127], 1);
    assert_eq!(message.gas_fee, 0);
    assert_eq!(message.payer, owner());
    assert_eq!(record.payload_length, 192);
    assert_eq!(decode_payload(&message.payload).unwrap().message, Vec::<u8>::new());
}

#[test]
fn notify_builds_the_message_from_the_capsule() {
    let mut ctx = unlock_accounts(text_capsule("hello", NOW + 100), owner());
    ctx.layerzero_endpoint = Some(endpoint());
    let receipt =
        notify(&ctx.time_capsule, &key_of(&owner()), &owner(), NOW + 150, ctx.layerzero_endpoint);
    assert_eq!(
        receipt.unlocked,
        CapsuleUnlockedEvent {
            capsule_id: key_of(&owner()),
            owner: owner(),
            unlocked_at: NOW + 150,
            destination_chain_id: CHAIN,
        }
    );
    assert_eq!(
        notify(&ctx.time_capsule, &key_of(&owner()), &owner(), NOW + 150, None).relay,
        None
    );
    let (message, _) = receipt.relay.unwrap();
    let want = serialize_payload(&MessagePayload {
        owner: owner(),
        unlock_timestamp: NOW + 150,
        creation_timestamp: NOW,
        capsule_type: 0,
        message: String::from("hello"),
    });
    assert_eq!(message.payload, want);
    assert!(!ctx.time_capsule.is_unlocked);
}

#[test]
fn send_message_addresses_the_encoded_payload() {
    let payload = MessagePayload {
        owner: owner(),
        unlock_timestamp: 10,
        creation_timestamp: 5,
        capsule_type: 1,
        message: String::from("0123456789abcdef0123456789abcdefX"),
    };
    let (message, record) = send_message(
        &endpoint(),
        DestinationAddress { chain_id: 7, address: DEST },
        payload.clone(),
        55,
        &stranger(),
        99,
    );
    assert_eq!(message.endpoint, endpoint().account);
    assert_eq!(message.chain_id, 7);
    assert_eq!(message.address, DEST);
    assert_eq!(message.payload, serialize_payload(&payload));
    assert_eq!(message.gas_fee, 55);
    assert_eq!(message.payer, stranger());
    assert_eq!(
        record,
        LayerZeroMessageSent { destination_chain_id: 7, payload_length: 256, timestamp: 99 }
    );
}
