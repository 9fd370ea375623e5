//! The operations on capsules. Each takes the records and accounts that
//! the host loaded, as plain values, decides, and hands back what the host
//! is to do next: a transfer to make, a message to forward, a record to
//! emit.
//!
//! A capsule is kept at the address derived from its owner, and its escrow
//! account at the address derived from that one. The operations derive
//! both themselves; the host loads and stores the records there.

use crate::address::{
    address_view, capsule_address, capsule_address_of, escrow_address, escrow_address_of,
    token_program_id, Address, DerivedAddress, TOKEN_PROGRAM_ID,
};
use crate::capsule::{
    creation, Capsule, CapsulePayload, CapsuleType, ErrorCode, Payload, TimeCapsule,
    TimeCapsuleManager,
};
use crate::codec::{encoded, MessagePayload};
use crate::escrow::{
    apply, balance, can_apply, lemma_reverse_restores, reverses, Authority, Authorization,
    Balances, TokenTransfer, Transfer, TransferOutcome,
};
use crate::layerzero::{
    relay_of, send_message, sent_record, DestinationAddress, LayerZeroEndpoint,
    LayerZeroMessageSent, RelayError, RelayMessage,
};
use vstd::prelude::*;

verus! {

/// Record of a creation.
#[derive(Clone, Copy, Debug, PartialEq, Eq)]
pub struct CapsuleCreatedEvent {
    pub capsule_id: Address,
    pub owner: Address,
    pub release_timestamp: i64,
    pub capsule_type: CapsuleType,
}

/// Record of an unlock.
#[derive(Clone, Copy, Debug, PartialEq, Eq)]
pub struct CapsuleUnlockedEvent {
    pub capsule_id: Address,
    pub owner: Address,
    pub unlocked_at: i64,
    pub destination_chain_id: u16,
}

/// Accounts of [`initialize`].
#[derive(Clone, Copy, Debug, PartialEq, Eq)]
pub struct Initialize {
    /// The manager record; `None` until it is set up.
    pub time_capsule_manager: Option<TimeCapsuleManager>,
    pub authority: Address,
}

/// Accounts of [`create_text_capsule`].
#[derive(Clone, Debug, PartialEq, Eq)]
pub struct CreateTextCapsule {
    pub time_capsule_manager: TimeCapsuleManager,
    /// The record kept at the payer's capsule address; `None` while the
    /// address is vacant.
    pub time_capsule: Option<TimeCapsule>,
    pub payer: Address,
}

/// Accounts of [`create_token_capsule`].
#[derive(Clone, Debug, PartialEq, Eq)]
pub struct CreateTokenCapsule {
    pub time_capsule_manager: TimeCapsuleManager,
    /// The record kept at the payer's capsule address; `None` while the
    /// address is vacant.
    pub time_capsule: Option<TimeCapsule>,
    pub payer: Address,
    /// The asset to escrow.
    pub mint: Address,
}

/// Accounts of [`unlock_capsule`].
#[derive(Clone, Debug, PartialEq, Eq)]
pub struct UnlockCapsule {
    pub time_capsule: TimeCapsule,
    /// The caller.
    pub payer: Address,
    /// The escrow account that the caller names.
    pub capsule_token_account: Address,
    /// The program that moves token value, where the caller gave one.
    pub token_program: Option<Address>,
    /// The relay endpoint, where one is configured.
    pub layerzero_endpoint: Option<LayerZeroEndpoint>,
}

/// The address at which the capsule of `owner` is kept.
pub open spec fn capsule_id_of(owner: Seq<u8>) -> Option<Seq<u8>> {
    match capsule_address_of(owner) {
        Some((capsule, _)) => Some(capsule),
        None => None,
    }
}

/// The address of the escrow account of the capsule of `owner`.
pub open spec fn escrow_id_of(owner: Seq<u8>) -> Option<Seq<u8>> {
    match capsule_address_of(owner) {
        Some((capsule, _)) => match escrow_address_of(capsule) {
            Some((escrow, _)) => Some(escrow),
            None => None,
        },
        None => None,
    }
}

/// Sets up the manager record with no capsule counted. A manager that
/// exists is left as it is.
pub fn initialize(ctx: &mut Initialize) -> (result: Result<(), ErrorCode>)
    ensures
        final(ctx).authority == old(ctx).authority,
        old(ctx).time_capsule_manager is Some ==> result == Err::<(), ErrorCode>(
            ErrorCode::ManagerAlreadyInitialized,
        ) && *final(ctx) == *old(ctx),
        old(ctx).time_capsule_manager is None ==> result == Ok::<(), ErrorCode>(())
            && final(ctx).time_capsule_manager == Some(
            TimeCapsuleManager { authority: old(ctx).authority, capsule_count: 0 },
        ),
{
    if ctx.time_capsule_manager.is_some() {
        return Err(ErrorCode::ManagerAlreadyInitialized);
    }
    ctx.time_capsule_manager = Some(
        TimeCapsuleManager { authority: ctx.authority, capsule_count: 0 },
    );
    Ok(())
}

/// The capsule that a creation makes for `owner`, or why it is refused. An
/// address that holds a record takes no other; the request itself must
/// stand; and the owner must have a capsule address.
pub open spec fn creation_at(
    occupied: bool,
    owner: Seq<u8>,
    payload: Payload,
    release_timestamp: i64,
    now: i64,
    destination_chain_id: u16,
    destination_address: Seq<u8>,
) -> Result<Capsule, ErrorCode> {
    if occupied {
        Err(ErrorCode::CapsuleAlreadyExists)
    } else {
        match creation(
            owner,
            payload,
            release_timestamp,
            now,
            destination_chain_id,
            destination_address,
        ) {
            Err(e) => Err(e),
            Ok(capsule) => if capsule_id_of(owner) is None {
                Err(ErrorCode::CapsuleAddressUnavailable)
            } else {
                Ok(capsule)
            },
        }
    }
}

/// The address of the capsule of `owner`, or the refusal for want of one.
fn locate_capsule(owner: &Address) -> (found: Result<DerivedAddress, ErrorCode>)
    ensures
        match found {
            Ok(d) => capsule_address_of(owner@) == Some((d.address@, d.bump)),
            Err(e) => capsule_address_of(owner@) is None && e
                == ErrorCode::CapsuleAddressUnavailable,
        },
{
    match capsule_address(owner) {
        Some(d) => Ok(d),
        None => Err(ErrorCode::CapsuleAddressUnavailable),
    }
}

/// Creates the payer's text capsule, locked until `release_timestamp`.
///
/// On success the record stands in the slot of the payer's capsule address,
/// the manager counts one capsule more, and the record of the creation is
/// returned. On refusal nothing changes.
pub fn create_text_capsule(
    ctx: &mut CreateTextCapsule,
    message: String,
    release_timestamp: i64,
    now: i64,
    destination_chain_id: u16,
    destination_address: [u8; 32],
) -> (result: Result<CapsuleCreatedEvent, ErrorCode>)
    requires
        old(ctx).time_capsule_manager.capsule_count < u64::MAX,
    ensures
        match result {
            Ok(event) => {
                &&& final(ctx).time_capsule matches Some(capsule)
                &&& creation_at(
                    old(ctx).time_capsule is Some,
                    old(ctx).payer@,
                    Payload::Text(message@),
                    release_timestamp,
                    now,
                    destination_chain_id,
                    destination_address@,
                ) == Ok::<Capsule, ErrorCode>(capsule@)
                &&& capsule@.wf()
                &&& final(ctx).time_capsule_manager == TimeCapsuleManager {
                    authority: old(ctx).time_capsule_manager.authority,
                    capsule_count: (old(ctx).time_capsule_manager.capsule_count + 1) as u64,
                }
                &&& final(ctx).payer == old(ctx).payer
                &&& capsule_id_of(old(ctx).payer@) == Some(event.capsule_id@)
                &&& event.owner == old(ctx).payer
                &&& event.release_timestamp == release_timestamp
                &&& event.capsule_type == CapsuleType::Text
            },
            Err(e) => {
                &&& creation_at(
                    old(ctx).time_capsule is Some,
                    old(ctx).payer@,
                    Payload::Text(message@),
                    release_timestamp,
                    now,
                    destination_chain_id,
                    destination_address@,
                ) == Err::<Capsule, ErrorCode>(e)
                &&& *final(ctx) == *old(ctx)
            },
        },
{
    if ctx.time_capsule.is_some() {
        return Err(ErrorCode::CapsuleAlreadyExists);
    }
    let capsule = TimeCapsule::create(
        ctx.payer,
        CapsulePayload::Text(message),
        release_timestamp,
        now,
        destination_chain_id,
        destination_address,
    )?;
    let located = locate_capsule(&ctx.payer)?;
    ctx.time_capsule = Some(capsule);
    ctx.time_capsule_manager.capsule_count += 1;
    Ok(
        CapsuleCreatedEvent {
            capsule_id: located.address,
            owner: ctx.payer,
            release_timestamp,
            capsule_type: CapsuleType::Text,
        },
    )
}

impl CreateTokenCapsule {
    /// The deposit that the creation of a token capsule asks for, or why
    /// the creation is refused before anything moves: the owner's `amount`
    /// goes to the escrow account of the owner's capsule.
    pub open spec fn deposit(
        self,
        amount: u64,
        release_timestamp: i64,
        now: i64,
    ) -> Result<Transfer, ErrorCode> {
        if self.time_capsule is Some {
            Err(ErrorCode::CapsuleAlreadyExists)
        } else if release_timestamp <= now {
            Err(ErrorCode::InvalidReleaseTime)
        } else if capsule_id_of(self.payer@) is None {
            Err(ErrorCode::CapsuleAddressUnavailable)
        } else {
            match escrow_id_of(self.payer@) {
                None => Err(ErrorCode::InvalidEscrowAddress),
                Some(escrow) => Ok(
                    Transfer {
                        mint: self.mint@,
                        amount: amount as nat,
                        from: self.payer@,
                        to: escrow,
                        authority: Authority::Holder(self.payer@),
                    },
                ),
            }
        }
    }
}

/// The plan of a token capsule's creation with the capsule's address.
fn token_capsule_plan(
    ctx: &CreateTokenCapsule,
    amount: u64,
    release_timestamp: i64,
    now: i64,
) -> (plan: Result<(Address, TokenTransfer), ErrorCode>)
    ensures
        match plan {
            Ok((capsule, transfer)) => ctx.deposit(amount, release_timestamp, now) == Ok::<
                Transfer,
                ErrorCode,
            >(transfer@) && capsule_id_of(ctx.payer@) == Some(capsule@),
            Err(e) => ctx.deposit(amount, release_timestamp, now) == Err::<Transfer, ErrorCode>(e),
        },
{
    if ctx.time_capsule.is_some() {
        return Err(ErrorCode::CapsuleAlreadyExists);
    }
    if release_timestamp <= now {
        return Err(ErrorCode::InvalidReleaseTime);
    }
    let located = locate_capsule(&ctx.payer)?;
    match escrow_address(&located.address) {
        None => Err(ErrorCode::InvalidEscrowAddress),
        Some(escrow) => Ok(
            (
                located.address,
                TokenTransfer {
                    mint: ctx.mint,
                    amount,
                    from: ctx.payer,
                    to: escrow.address,
                    authority: Authorization::Holder(ctx.payer),
                },
            ),
        ),
    }
}

/// Decides whether the payer's token capsule can be created, and names the
/// deposit that the host is to make before [`create_token_capsule`] records
/// it. Changes nothing.
pub fn plan_token_capsule(
    ctx: &CreateTokenCapsule,
    amount: u64,
    release_timestamp: i64,
    now: i64,
) -> (plan: Result<TokenTransfer, ErrorCode>)
    ensures
        match plan {
            Ok(transfer) => ctx.deposit(amount, release_timestamp, now) == Ok::<
                Transfer,
                ErrorCode,
            >(transfer@),
            Err(e) => ctx.deposit(amount, release_timestamp, now) == Err::<Transfer, ErrorCode>(e),
        },
{
    match token_capsule_plan(ctx, amount, release_timestamp, now) {
        Ok((_, transfer)) => Ok(transfer),
        Err(e) => Err(e),
    }
}

/// Creates the payer's token capsule once the host has made the deposit
/// that [`plan_token_capsule`] named.
///
/// A request that the plan refuses is refused here with the same error,
/// whatever `deposit` says. Where the plan stands and the deposit was not
/// completed, the creation fails with `TransferFailed`. On every failure
/// nothing changes. On success the record stands in the slot of the
/// payer's capsule address, the manager counts one capsule more, and the
/// record of the creation is returned.
pub fn create_token_capsule(
    ctx: &mut CreateTokenCapsule,
    amount: u64,
    release_timestamp: i64,
    now: i64,
    destination_chain_id: u16,
    destination_address: [u8; 32],
    deposit: TransferOutcome,
) -> (result: Result<CapsuleCreatedEvent, ErrorCode>)
    requires
        old(ctx).time_capsule_manager.capsule_count < u64::MAX,
    ensures
        match result {
            Ok(event) => {
                &&& old(ctx).deposit(amount, release_timestamp, now) is Ok
                &&& deposit == TransferOutcome::Completed
                &&& final(ctx).time_capsule matches Some(capsule)
                &&& creation_at(
                    old(ctx).time_capsule is Some,
                    old(ctx).payer@,
                    Payload::Token { mint: old(ctx).mint@, amount },
                    release_timestamp,
                    now,
                    destination_chain_id,
                    destination_address@,
                ) == Ok::<Capsule, ErrorCode>(capsule@)
                &&& capsule@.wf()
                &&& final(ctx).time_capsule_manager == TimeCapsuleManager {
                    authority: old(ctx).time_capsule_manager.authority,
                    capsule_count: (old(ctx).time_capsule_manager.capsule_count + 1) as u64,
                }
                &&& final(ctx).payer == old(ctx).payer
                &&& final(ctx).mint == old(ctx).mint
                &&& capsule_id_of(old(ctx).payer@) == Some(event.capsule_id@)
                &&& event.owner == old(ctx).payer
                &&& event.release_timestamp == release_timestamp
                &&& event.capsule_type == CapsuleType::Token
            },
            Err(e) => {
                &&& *final(ctx) == *old(ctx)
                &&& match old(ctx).deposit(amount, release_timestamp, now) {
                    Err(refusal) => e == refusal,
                    Ok(_) => deposit != TransferOutcome::Completed && e
                        == ErrorCode::TransferFailed,
                }
            },
        },
{
    let (capsule_id, _) = token_capsule_plan(ctx, amount, release_timestamp, now)?;
    match deposit {
        TransferOutcome::Completed => {},
        _ => {
            return Err(ErrorCode::TransferFailed);
        },
    }
    let capsule = TimeCapsule::create(
        ctx.payer,
        CapsulePayload::Token { mint: ctx.mint, amount },
        release_timestamp,
        now,
        destination_chain_id,
        destination_address,
    )?;
    ctx.time_capsule = Some(capsule);
    ctx.time_capsule_manager.capsule_count += 1;
    Ok(
        CapsuleCreatedEvent {
            capsule_id,
            owner: ctx.payer,
            release_timestamp,
            capsule_type: CapsuleType::Token,
        },
    )
}

/// What an unlock hands back: the record of it, and, where a relay
/// endpoint is configured, the message for the endpoint with the record of
/// its preparation.
#[derive(Clone, Debug, PartialEq, Eq)]
pub struct UnlockReceipt {
    pub unlocked: CapsuleUnlockedEvent,
    pub relay: Option<(RelayMessage, LayerZeroMessageSent)>,
}

/// The notification of the unlock, by `caller` at `unlock_time`, of the
/// capsule kept at `capsule_id`: the record names them, and the message,
/// where there is an endpoint, carries the encoded notification to the
/// capsule's destination.
pub open spec fn is_notification(
    receipt: UnlockReceipt,
    capsule: Capsule,
    capsule_id: Address,
    caller: Address,
    unlock_time: i64,
    endpoint: Option<LayerZeroEndpoint>,
) -> bool {
    &&& receipt.unlocked == CapsuleUnlockedEvent {
        capsule_id,
        owner: caller,
        unlocked_at: unlock_time,
        destination_chain_id: capsule.destination_chain_id,
    }
    &&& match endpoint {
        None => receipt.relay is None,
        Some(endpoint) => {
            &&& receipt.relay matches Some((message, record))
            &&& message@ == relay_of(
                endpoint.account@,
                capsule.destination_chain_id,
                capsule.destination_address,
                capsule.notification(caller@, unlock_time),
                0,
                caller@,
            )
            &&& record == sent_record(
                capsule.destination_chain_id,
                encoded(capsule.notification(caller@, unlock_time)).len(),
                unlock_time,
            )
        },
    }
}

impl UnlockCapsule {
    /// Whether the capsule can be unlocked at `now`, and what is then to be
    /// released from escrow first; or why the unlock is refused.
    ///
    /// A capsule is unlocked once, not before its release time, and by its
    /// owner. Value in escrow is released through the token program, from
    /// the escrow account of the owner's capsule and no other, to the
    /// owner, on the authority of the capsule's address.
    pub open spec fn release(self, now: i64) -> Result<Option<Transfer>, ErrorCode> {
        let capsule = self.time_capsule@;
        if capsule.is_unlocked {
            Err(ErrorCode::CapsuleAlreadyUnlocked)
        } else if now < capsule.release_timestamp {
            Err(ErrorCode::CapsuleNotReady)
        } else if capsule.owner != self.payer@ {
            Err(ErrorCode::NotCapsuleOwner)
        } else {
            match capsule_address_of(capsule.owner) {
                None => Err(ErrorCode::CapsuleAddressUnavailable),
                Some((capsule_id, bump)) => match capsule.escrow() {
                    None => Ok(None),
                    Some((mint, amount)) => {
                        if self.token_program is None {
                            Err(ErrorCode::MissingTokenAccounts)
                        } else if address_view(self.token_program) != Some(TOKEN_PROGRAM_ID@) {
                            Err(ErrorCode::InvalidTokenProgram)
                        } else if escrow_id_of(capsule.owner) != Some(
                            self.capsule_token_account@,
                        ) {
                            Err(ErrorCode::InvalidEscrowAddress)
                        } else {
                            Ok(
                                Some(
                                    Transfer {
                                        mint,
                                        amount: amount as nat,
                                        from: self.capsule_token_account@,
                                        to: capsule.owner,
                                        authority: Authority::Capsule {
                                            capsule: capsule_id,
                                            owner: capsule.owner,
                                            bump,
                                        },
                                    },
                                ),
                            )
                        }
                    },
                },
            }
        }
    }
}

/// The plan of an unlock with the capsule's address.
fn unlock_plan(
    ctx: &UnlockCapsule,
    now: i64,
) -> (plan: Result<(Address, Option<TokenTransfer>), ErrorCode>)
    ensures
        match plan {
            Ok((capsule_id, Some(transfer))) => ctx.release(now) == Ok::<
                Option<Transfer>,
                ErrorCode,
            >(Some(transfer@)) && capsule_id_of(ctx.time_capsule@.owner) == Some(capsule_id@),
            Ok((capsule_id, None)) => ctx.release(now) == Ok::<Option<Transfer>, ErrorCode>(None)
                && capsule_id_of(ctx.time_capsule@.owner) == Some(capsule_id@),
            Err(e) => ctx.release(now) == Err::<Option<Transfer>, ErrorCode>(e),
        },
{
    if ctx.time_capsule.is_unlocked {
        return Err(ErrorCode::CapsuleAlreadyUnlocked);
    }
    if now < ctx.time_capsule.release_timestamp {
        return Err(ErrorCode::CapsuleNotReady);
    }
    if !ctx.time_capsule.owner.same_as(&ctx.payer) {
        return Err(ErrorCode::NotCapsuleOwner);
    }
    let located = locate_capsule(&ctx.time_capsule.owner)?;
    match ctx.time_capsule.capsule_type {
        CapsuleType::Token => {},
        _ => {
            return Ok((located.address, None));
        },
    }
    let (amount, mint) = match (ctx.time_capsule.token_amount, ctx.time_capsule.token_mint) {
        (Some(amount), Some(mint)) => (amount, mint),
        _ => {
            return Ok((located.address, None));
        },
    };
    let token_program = match ctx.token_program {
        None => {
            return Err(ErrorCode::MissingTokenAccounts);
        },
        Some(program) => program,
    };
    if !token_program.same_as(&token_program_id()) {
        return Err(ErrorCode::InvalidTokenProgram);
    }
    let expected = match escrow_address(&located.address) {
        None => {
            return Err(ErrorCode::InvalidEscrowAddress);
        },
        Some(expected) => expected,
    };
    if !ctx.capsule_token_account.same_as(&expected.address) {
        return Err(ErrorCode::InvalidEscrowAddress);
    }
    Ok(
        (
            located.address,
            Some(
                TokenTransfer {
                    mint,
                    amount,
                    from: ctx.capsule_token_account,
                    to: ctx.time_capsule.owner,
                    authority: Authorization::Capsule {
                        capsule: located.address,
                        owner: ctx.time_capsule.owner,
                        bump: located.bump,
                    },
                },
            ),
        ),
    )
}

/// Decides whether the capsule can be unlocked at `now`, and names the
/// release that the host is to make before [`unlock_capsule`] records the
/// unlock. Changes nothing.
pub fn plan_unlock(ctx: &UnlockCapsule, now: i64) -> (plan: Result<Option<TokenTransfer>, ErrorCode>)
    ensures
        match plan {
            Ok(Some(transfer)) => ctx.release(now) == Ok::<Option<Transfer>, ErrorCode>(
                Some(transfer@),
            ),
            Ok(None) => ctx.release(now) == Ok::<Option<Transfer>, ErrorCode>(None),
            Err(e) => ctx.release(now) == Err::<Option<Transfer>, ErrorCode>(e),
        },
{
    match unlock_plan(ctx, now) {
        Ok((_, release)) => Ok(release),
        Err(e) => Err(e),
    }
}

/// Makes the notification of the unlock, by `caller` at `unlock_time`, of
/// the capsule kept at `capsule_id`: the record of the unlock, and, where
/// an endpoint is configured, the encoded message for it, addressed to the
/// capsule's destination.
pub fn notify(
    capsule: &TimeCapsule,
    capsule_id: &Address,
    caller: &Address,
    unlock_time: i64,
    endpoint: Option<LayerZeroEndpoint>,
) -> (receipt: UnlockReceipt)
    ensures
        is_notification(receipt, capsule@, *capsule_id, *caller, unlock_time, endpoint),
{
    let unlocked = CapsuleUnlockedEvent {
        capsule_id: *capsule_id,
        owner: *caller,
        unlocked_at: unlock_time,
        destination_chain_id: capsule.destination_chain_id,
    };
    match endpoint {
        None => UnlockReceipt { unlocked, relay: None },
        Some(endpoint) => {
            let payload = MessagePayload {
                owner: *caller,
                unlock_timestamp: unlock_time,
                creation_timestamp: capsule.created_at,
                capsule_type: capsule.capsule_type.code(),
                message: capsule.content.clone(),
            };
            let destination = DestinationAddress {
                chain_id: capsule.destination_chain_id,
                address: capsule.destination_address,
            };
            let sent = send_message(&endpoint, destination, payload, 0, caller, unlock_time);
            UnlockReceipt { unlocked, relay: Some(sent) }
        },
    }
}

/// Unlocks the capsule at `now`, once the host has made the release that
/// [`plan_unlock`] named.
///
/// A request that the plan refuses is refused here with the same error,
/// whatever `release` says. Where the plan names a release and it was not
/// completed, the unlock fails with `TransferFailed`. On every failure
/// nothing changes. On success the capsule is unlocked at `now`, for good,
/// nothing else in it changes, and the notification is returned: whether
/// the endpoint then takes the message has no bearing on the unlock.
pub fn unlock_capsule(
    ctx: &mut UnlockCapsule,
    now: i64,
    release: TransferOutcome,
) -> (result: Result<UnlockReceipt, ErrorCode>)
    ensures
        match result {
            Ok(receipt) => {
                &&& old(ctx).release(now) matches Ok(planned)
                &&& planned is Some ==> release == TransferOutcome::Completed
                &&& final(ctx).time_capsule@ == old(ctx).time_capsule@.unlocked(now)
                &&& old(ctx).time_capsule@.wf() ==> final(ctx).time_capsule@.wf()
                &&& final(ctx).payer == old(ctx).payer
                &&& final(ctx).capsule_token_account == old(ctx).capsule_token_account
                &&& final(ctx).token_program == old(ctx).token_program
                &&& final(ctx).layerzero_endpoint == old(ctx).layerzero_endpoint
                &&& capsule_id_of(old(ctx).payer@) == Some(receipt.unlocked.capsule_id@)
                &&& is_notification(
                    receipt,
                    old(ctx).time_capsule@,
                    receipt.unlocked.capsule_id,
                    old(ctx).payer,
                    now,
                    old(ctx).layerzero_endpoint,
                )
            },
            Err(e) => {
                &&& *final(ctx) == *old(ctx)
                &&& match old(ctx).release(now) {
                    Err(refusal) => e == refusal,
                    Ok(planned) => planned is Some && release != TransferOutcome::Completed && e
                        == ErrorCode::TransferFailed,
                }
            },
        },
{
    let (capsule_id, planned) = unlock_plan(ctx, now)?;
    if planned.is_some() {
        match release {
            TransferOutcome::Completed => {},
            _ => {
                return Err(ErrorCode::TransferFailed);
            },
        }
    }
    ctx.time_capsule.is_unlocked = true;
    ctx.time_capsule.unlocked_at = Some(now);
    Ok(notify(&ctx.time_capsule, &capsule_id, &ctx.payer, now, ctx.layerzero_endpoint))
}

/// One entry of the audit trail of an unlock.
#[derive(Clone, Copy, Debug, PartialEq, Eq)]
pub enum UnlockRecord {
    /// The capsule was unlocked.
    CapsuleUnlocked(CapsuleUnlockedEvent),
    /// A message was prepared for the relay.
    MessageSent(LayerZeroMessageSent),
    /// The endpoint did not take the message.
    RelayFailed { destination_chain_id: u16, error: RelayError },
}

/// How an unlock ended. The unlock itself stands in every case.
#[derive(Debug, PartialEq, Eq)]
pub struct UnlockReport {
    /// The unlock that was made.
    pub unlocked: CapsuleUnlockedEvent,
    /// `Err(RelayDeliveryFailed)` where the endpoint did not take the
    /// message; `Ok` otherwise.
    pub delivery: Result<(), ErrorCode>,
    /// What the host is to emit, in order.
    pub audit: Vec<UnlockRecord>,
}

/// The audit trail of an unlock. Without an endpoint the unlock is recorded
/// locally. With one, the prepared message is recorded; if the endpoint
/// then fails, the unlock is recorded locally after all, and the failure
/// with it.
pub open spec fn unlock_trail(
    receipt: UnlockReceipt,
    delivery: Result<(), RelayError>,
) -> Seq<UnlockRecord> {
    match receipt.relay {
        None => seq![UnlockRecord::CapsuleUnlocked(receipt.unlocked)],
        Some((message, record)) => match delivery {
            Ok(_) => seq![UnlockRecord::MessageSent(record)],
            Err(error) => seq![
                UnlockRecord::MessageSent(record),
                UnlockRecord::CapsuleUnlocked(receipt.unlocked),
                UnlockRecord::RelayFailed { destination_chain_id: message.chain_id, error },
            ],
        },
    }
}

/// Closes an unlock once the host has handed the message to the endpoint:
/// `delivery` is the endpoint's answer, and counts for nothing where the
/// receipt holds no message. A failed delivery is reported and recorded;
/// it does not undo the unlock.
pub fn report_unlock(
    receipt: &UnlockReceipt,
    delivery: Result<(), RelayError>,
) -> (report: UnlockReport)
    ensures
        report.unlocked == receipt.unlocked,
        report.delivery == (if receipt.relay is Some && delivery is Err {
            Err::<(), ErrorCode>(ErrorCode::RelayDeliveryFailed)
        } else {
            Ok::<(), ErrorCode>(())
        }),
        report.audit@ == unlock_trail(*receipt, delivery),
{
    let mut audit: Vec<UnlockRecord> = Vec::new();
    let mut outcome: Result<(), ErrorCode> = Ok(());
    match &receipt.relay {
        None => {
            audit.push(UnlockRecord::CapsuleUnlocked(receipt.unlocked));
        },
        Some((message, record)) => {
            audit.push(UnlockRecord::MessageSent(*record));
            match delivery {
                Ok(_) => {},
                Err(error) => {
                    audit.push(UnlockRecord::CapsuleUnlocked(receipt.unlocked));
                    audit.push(
                        UnlockRecord::RelayFailed { destination_chain_id: message.chain_id, error },
                    );
                    outcome = Err(ErrorCode::RelayDeliveryFailed);
                },
            }
        },
    }
    proof {
        assert(audit@ =~= unlock_trail(*receipt, delivery));
    }
    UnlockReport { unlocked: receipt.unlocked, delivery: outcome, audit }
}

/// A capsule is unlocked once. After an unlock, every further attempt is
/// refused as already unlocked, whoever makes it, whenever, and with
/// whatever accounts.
pub proof fn lemma_unlock_is_once(before: UnlockCapsule, now: i64, after: UnlockCapsule, later: i64)
    requires
        after.time_capsule@ == before.time_capsule@.unlocked(now),
    ensures
        after.release(later) == Err::<Option<Transfer>, ErrorCode>(
            ErrorCode::CapsuleAlreadyUnlocked,
        ),
{
}

/// What the unlock of a token capsule releases is what its creation
/// deposited: the same amount of the same asset, from the escrow account
/// back to the owner. With no other transfer between the two, every
/// holder, the owner first of all, has after the unlock what it had before
/// the creation.
pub proof fn lemma_release_returns_deposit(
    create: CreateTokenCapsule,
    amount: u64,
    release_timestamp: i64,
    created: i64,
    destination_chain_id: u16,
    destination_address: Seq<u8>,
    unlock: UnlockCapsule,
    now: i64,
    balances: Balances,
)
    requires
        create.deposit(amount, release_timestamp, created) is Ok,
        creation_at(
            create.time_capsule is Some,
            create.payer@,
            Payload::Token { mint: create.mint@, amount },
            release_timestamp,
            created,
            destination_chain_id,
            destination_address,
        ) == Ok::<Capsule, ErrorCode>(unlock.time_capsule@),
        unlock.release(now) is Ok,
        can_apply(balances, create.deposit(amount, release_timestamp, created)->Ok_0),
    ensures
        unlock.release(now) matches Ok(Some(back)) && reverses(
            back,
            create.deposit(amount, release_timestamp, created)->Ok_0,
        ) && back.amount == amount && back.to == create.payer@ && forall|holder: Seq<u8>|
            balance(
                apply(
                    apply(balances, create.deposit(amount, release_timestamp, created)->Ok_0),
                    back,
                ),
                holder,
            ) == balance(balances, holder),
{
    let forth = create.deposit(amount, release_timestamp, created)->Ok_0;
    let back = unlock.release(now)->Ok_0->0;
    lemma_reverse_restores(balances, forth, back);
}

} // verus!
