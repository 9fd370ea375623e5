//! The capsule record and the rules of its one transition, from locked to
//! unlocked.

use crate::address::{address_view, Address};
use crate::codec::UnlockNotification;
use vstd::prelude::*;

verus! {

/// What a capsule holds.
#[derive(Clone, Copy, Debug, PartialEq, Eq, Structural)]
pub enum CapsuleType {
    /// Free text.
    Text,
    /// A balance of a fungible token, held in escrow.
    Token,
    /// Reserved. No capsule of this kind can be created.
    NFT,
}

impl CapsuleType {
    /// The code by which a notification names the kind.
    pub open spec fn code_of(self) -> u8 {
        match self {
            CapsuleType::Text => 0,
            CapsuleType::Token => 1,
            CapsuleType::NFT => 2,
        }
    }

    /// The code by which a notification names the kind.
    pub fn code(&self) -> (code: u8)
        ensures
            code == self.code_of(),
    {
        match self {
            CapsuleType::Text => 0,
            CapsuleType::Token => 1,
            CapsuleType::NFT => 2,
        }
    }
}

/// Why an operation was refused. Every refusal leaves all records as they
/// were.
#[derive(Clone, Copy, Debug, PartialEq, Eq, Structural)]
pub enum ErrorCode {
    /// The release time is not after the time of creation.
    InvalidReleaseTime,
    /// The kind is reserved.
    UnsupportedCapsuleKind,
    /// A record is already kept at the owner's capsule address.
    CapsuleAlreadyExists,
    /// No capsule address can be derived for the owner.
    CapsuleAddressUnavailable,
    /// The manager record was set up before.
    ManagerAlreadyInitialized,
    /// The capsule was unlocked before.
    CapsuleAlreadyUnlocked,
    /// The release time has not come.
    CapsuleNotReady,
    /// The caller is not the capsule's owner.
    NotCapsuleOwner,
    /// A token capsule is to be unlocked and no token program was given.
    MissingTokenAccounts,
    /// The program given is not the token program.
    InvalidTokenProgram,
    /// The escrow account is not the one derived for the capsule.
    InvalidEscrowAddress,
    /// The host did not move the escrowed value.
    TransferFailed,
    /// The relay endpoint did not take the notification.
    RelayDeliveryFailed,
}

/// The single global record: who set the program up, and how many capsules
/// were ever created.
#[derive(Clone, Copy, Debug, PartialEq, Eq)]
pub struct TimeCapsuleManager {
    pub authority: Address,
    pub capsule_count: u64,
}

/// One capsule, as it is kept.
#[derive(Clone, Debug, PartialEq, Eq)]
pub struct TimeCapsule {
    pub owner: Address,
    pub capsule_type: CapsuleType,
    pub release_timestamp: i64,
    pub created_at: i64,
    pub is_unlocked: bool,
    pub unlocked_at: Option<i64>,
    /// The text of a text capsule; empty otherwise.
    pub content: String,
    /// The asset of a token capsule.
    pub token_mint: Option<Address>,
    /// The amount of a token capsule.
    pub token_amount: Option<u64>,
    /// The foreign chain to notify.
    pub destination_chain_id: u16,
    /// The address to notify on that chain.
    pub destination_address: [u8; 32],
}

/// The mathematical content of a [`TimeCapsule`].
pub struct Capsule {
    pub owner: Seq<u8>,
    pub capsule_type: CapsuleType,
    pub release_timestamp: i64,
    pub created_at: i64,
    pub is_unlocked: bool,
    pub unlocked_at: Option<i64>,
    pub content: Seq<char>,
    pub token_mint: Option<Seq<u8>>,
    pub token_amount: Option<u64>,
    pub destination_chain_id: u16,
    pub destination_address: Seq<u8>,
}

impl View for TimeCapsule {
    type V = Capsule;

    open spec fn view(&self) -> Capsule {
        Capsule {
            owner: self.owner@,
            capsule_type: self.capsule_type,
            release_timestamp: self.release_timestamp,
            created_at: self.created_at,
            is_unlocked: self.is_unlocked,
            unlocked_at: self.unlocked_at,
            content: self.content@,
            token_mint: address_view(self.token_mint),
            token_amount: self.token_amount,
            destination_chain_id: self.destination_chain_id,
            destination_address: self.destination_address@,
        }
    }
}

impl Capsule {
    /// What every capsule made and changed by this library satisfies.
    pub open spec fn wf(self) -> bool {
        &&& self.owner.len() == 32
        &&& self.destination_address.len() == 32
        &&& self.release_timestamp > self.created_at
        &&& self.capsule_type != CapsuleType::NFT
        &&& self.is_unlocked <==> self.unlocked_at is Some
        &&& self.unlocked_at matches Some(t) ==> t >= self.release_timestamp
        &&& self.token_mint is Some <==> self.token_amount is Some
        &&& self.token_amount is Some <==> self.capsule_type == CapsuleType::Token
        &&& self.capsule_type != CapsuleType::Text ==> self.content.len() == 0
    }

    /// The asset and amount in escrow for this capsule, if any.
    pub open spec fn escrow(self) -> Option<(Seq<u8>, u64)> {
        if self.capsule_type == CapsuleType::Token && self.token_mint is Some
            && self.token_amount is Some {
            Some((self.token_mint->0, self.token_amount->0))
        } else {
            None
        }
    }

    /// This capsule after its unlock at `now`.
    pub open spec fn unlocked(self, now: i64) -> Capsule {
        Capsule { is_unlocked: true, unlocked_at: Some(now), ..self }
    }

    /// What is announced when `caller` unlocks this capsule at `now`.
    pub open spec fn notification(self, caller: Seq<u8>, now: i64) -> UnlockNotification {
        UnlockNotification {
            owner: caller,
            unlock_timestamp: now,
            creation_timestamp: self.created_at,
            capsule_type: self.capsule_type.code_of(),
            message: self.content,
        }
    }
}

/// What a new capsule is to hold.
#[derive(Clone, Debug, PartialEq, Eq)]
pub enum CapsulePayload {
    Text(String),
    Token { mint: Address, amount: u64 },
    /// Reserved: creation with it is refused.
    NFT,
}

/// The mathematical content of a [`CapsulePayload`].
pub enum Payload {
    Text(Seq<char>),
    Token { mint: Seq<u8>, amount: u64 },
    NFT,
}

impl View for CapsulePayload {
    type V = Payload;

    open spec fn view(&self) -> Payload {
        match *self {
            CapsulePayload::Text(text) => Payload::Text(text@),
            CapsulePayload::Token { mint, amount } => Payload::Token { mint: mint@, amount },
            CapsulePayload::NFT => Payload::NFT,
        }
    }
}

/// The capsule that a creation request makes at `now`, or why it is
/// refused: the release time must lie after `now`, and the kind must not be
/// the reserved one.
pub open spec fn creation(
    owner: Seq<u8>,
    payload: Payload,
    release_timestamp: i64,
    now: i64,
    destination_chain_id: u16,
    destination_address: Seq<u8>,
) -> Result<Capsule, ErrorCode> {
    if release_timestamp <= now {
        Err(ErrorCode::InvalidReleaseTime)
    } else {
        let blank = Capsule {
            owner,
            capsule_type: CapsuleType::Text,
            release_timestamp,
            created_at: now,
            is_unlocked: false,
            unlocked_at: None,
            content: Seq::empty(),
            token_mint: None,
            token_amount: None,
            destination_chain_id,
            destination_address,
        };
        match payload {
            Payload::Text(text) => Ok(Capsule { content: text, ..blank }),
            Payload::Token { mint, amount } => Ok(
                Capsule {
                    capsule_type: CapsuleType::Token,
                    token_mint: Some(mint),
                    token_amount: Some(amount),
                    ..blank
                },
            ),
            Payload::NFT => Err(ErrorCode::UnsupportedCapsuleKind),
        }
    }
}

impl TimeCapsule {
    /// Makes the record of a new capsule, locked, or refuses the request.
    pub fn create(
        owner: Address,
        payload: CapsulePayload,
        release_timestamp: i64,
        now: i64,
        destination_chain_id: u16,
        destination_address: [u8; 32],
    ) -> (result: Result<TimeCapsule, ErrorCode>)
        ensures
            match result {
                Ok(capsule) => creation(
                    owner@,
                    payload@,
                    release_timestamp,
                    now,
                    destination_chain_id,
                    destination_address@,
                ) == Ok::<Capsule, ErrorCode>(capsule@) && capsule@.wf(),
                Err(e) => creation(
                    owner@,
                    payload@,
                    release_timestamp,
                    now,
                    destination_chain_id,
                    destination_address@,
                ) == Err::<Capsule, ErrorCode>(e),
            },
    {
        if release_timestamp <= now {
            return Err(ErrorCode::InvalidReleaseTime);
        }
        match payload {
            CapsulePayload::Text(text) => Ok(
                TimeCapsule {
                    owner,
                    capsule_type: CapsuleType::Text,
                    release_timestamp,
                    created_at: now,
                    is_unlocked: false,
                    unlocked_at: None,
                    content: text,
                    token_mint: None,
                    token_amount: None,
                    destination_chain_id,
                    destination_address,
                },
            ),
            CapsulePayload::Token { mint, amount } => Ok(
                TimeCapsule {
                    owner,
                    capsule_type: CapsuleType::Token,
                    release_timestamp,
                    created_at: now,
                    is_unlocked: false,
                    unlocked_at: None,
                    content: String::new(),
                    token_mint: Some(mint),
                    token_amount: Some(amount),
                    destination_chain_id,
                    destination_address,
                },
            ),
            CapsulePayload::NFT => Err(ErrorCode::UnsupportedCapsuleKind),
        }
    }
}

/// Every capsule that is created is locked, well formed, and released only
/// after its creation; a release time that is not after `now` is refused.
pub proof fn lemma_creation_is_valid(
    owner: Seq<u8>,
    payload: Payload,
    release_timestamp: i64,
    now: i64,
    destination_chain_id: u16,
    destination_address: Seq<u8>,
)
    requires
        owner.len() == 32,
        destination_address.len() == 32,
    ensures
        release_timestamp <= now ==> creation(
            owner,
            payload,
            release_timestamp,
            now,
            destination_chain_id,
            destination_address,
        ) == Err::<Capsule, ErrorCode>(ErrorCode::InvalidReleaseTime),
        creation(
            owner,
            payload,
            release_timestamp,
            now,
            destination_chain_id,
            destination_address,
        ) matches Ok(c) ==> c.wf() && c.release_timestamp > c.created_at && c.created_at == now
            && !c.is_unlocked,
{
}

} // verus!
