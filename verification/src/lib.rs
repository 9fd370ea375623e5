//! Time-locked capsules: a payload is locked under a deterministic address
//! until a release time chosen at creation, unlocked exactly once by its
//! owner, and announced to a foreign chain in a 256-bit-word encoding.
//!
//! The library decides; the host acts. An operation that moves value runs
//! in two steps. The host first asks for the plan, which names the
//! transfer to make or refuses the request; it makes the transfer; then it
//! hands the outcome to the operation itself, which changes the records
//! only where the transfer was completed. What the host is to emit or to
//! forward comes back as plain values.
//!
//! - [`address`]: identities and the addresses derived from them.
//! - [`capsule`]: the capsule record and its rules of creation.
//! - [`codec`]: the wire format of the unlock notification.
//! - [`escrow`]: transfers, and the model of balances they act on.
//! - [`layerzero`]: the message handed to the relay endpoint.
//! - [`program`]: the operations: initialize, create, unlock.

pub mod address;
pub mod capsule;
pub mod codec;
pub mod escrow;
pub mod layerzero;
pub mod program;
