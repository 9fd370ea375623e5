//! The relay towards a foreign chain: what is handed to the endpoint when a
//! capsule is unlocked, and what is recorded about it.

use crate::address::Address;
use crate::codec::{encoded, serialize_payload, MessagePayload, UnlockNotification};
use vstd::prelude::*;

verus! {

/// A configured relay endpoint, known by its account.
#[derive(Clone, Copy, Debug, PartialEq, Eq)]
pub struct LayerZeroEndpoint {
    pub account: Address,
}

/// Where on a foreign chain a notification goes.
#[derive(Clone, Copy, Debug, PartialEq, Eq)]
pub struct DestinationAddress {
    pub chain_id: u16,
    pub address: [u8; 32],
}

/// Record of a message prepared for the relay.
#[derive(Clone, Copy, Debug, PartialEq, Eq, Structural)]
pub struct LayerZeroMessageSent {
    pub destination_chain_id: u16,
    pub payload_length: u32,
    pub timestamp: i64,
}

/// Why the endpoint did not take a message.
#[derive(Clone, Copy, Debug, PartialEq, Eq, Structural)]
pub struct RelayError {
    pub code: u64,
}

/// What the host forwards to the endpoint.
#[derive(Clone, Debug, PartialEq, Eq)]
pub struct RelayMessage {
    pub endpoint: Address,
    pub chain_id: u16,
    pub address: [u8; 32],
    pub payload: Vec<u8>,
    pub gas_fee: u64,
    pub payer: Address,
}

/// The mathematical content of a [`RelayMessage`].
pub struct Relay {
    pub endpoint: Seq<u8>,
    pub chain_id: u16,
    pub address: Seq<u8>,
    pub payload: Seq<u8>,
    pub gas_fee: u64,
    pub payer: Seq<u8>,
}

impl View for RelayMessage {
    type V = Relay;

    open spec fn view(&self) -> Relay {
        Relay {
            endpoint: self.endpoint@,
            chain_id: self.chain_id,
            address: self.address@,
            payload: self.payload@,
            gas_fee: self.gas_fee,
            payer: self.payer@,
        }
    }
}

/// The message that carries `n` through `endpoint` to `address` on the
/// chain `chain_id`.
pub open spec fn relay_of(
    endpoint: Seq<u8>,
    chain_id: u16,
    address: Seq<u8>,
    n: UnlockNotification,
    gas_fee: u64,
    payer: Seq<u8>,
) -> Relay {
    Relay { endpoint, chain_id, address, payload: encoded(n), gas_fee, payer }
}

/// The record made at `now` of a message of `payload_len` bytes for the
/// chain `chain_id`. The length is kept in 32 bits.
pub open spec fn sent_record(chain_id: u16, payload_len: nat, now: i64) -> LayerZeroMessageSent {
    LayerZeroMessageSent {
        destination_chain_id: chain_id,
        payload_length: (payload_len % 0x1_0000_0000) as u32,
        timestamp: now,
    }
}

/// Prepares a notification for the relay: encodes the payload, addresses it
/// to the destination, and makes the record of it. Delivery itself is the
/// host's work.
pub fn send_message(
    endpoint: &LayerZeroEndpoint,
    destination: DestinationAddress,
    payload: MessagePayload,
    gas_fee: u64,
    payer: &Address,
    now: i64,
) -> (sent: (RelayMessage, LayerZeroMessageSent))
    ensures
        sent.0@ == relay_of(
            endpoint.account@,
            destination.chain_id,
            destination.address@,
            payload@,
            gas_fee,
            payer@,
        ),
        sent.1 == sent_record(destination.chain_id, encoded(payload@).len(), now),
{
    let serialized_payload = serialize_payload(&payload);
    let length: u64 = serialized_payload.len() as u64;
    let record = LayerZeroMessageSent {
        destination_chain_id: destination.chain_id,
        payload_length: (length % 0x1_0000_0000) as u32,
        timestamp: now,
    };
    let message = RelayMessage {
        endpoint: endpoint.account,
        chain_id: destination.chain_id,
        address: destination.address,
        payload: serialized_payload,
        gas_fee,
        payer: *payer,
    };
    (message, record)
}

} // verus!
