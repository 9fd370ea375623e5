//! Custody of token value: the transfers that a capsule asks its host to
//! make, and a model of balances against which they are read.

use crate::address::Address;
use vstd::prelude::*;

verus! {

/// Who authorizes a transfer.
#[derive(Clone, Copy, Debug, PartialEq, Eq)]
pub enum Authorization {
    /// The holder signs for its own balance.
    Holder(Address),
    /// A capsule's address signs for its escrow account. No key exists for
    /// it: the host grants the signature to the program that derived the
    /// address from the owner with this bump seed.
    Capsule { capsule: Address, owner: Address, bump: u8 },
}

/// The mathematical content of an [`Authorization`].
pub enum Authority {
    Holder(Seq<u8>),
    Capsule { capsule: Seq<u8>, owner: Seq<u8>, bump: u8 },
}

impl View for Authorization {
    type V = Authority;

    open spec fn view(&self) -> Authority {
        match *self {
            Authorization::Holder(holder) => Authority::Holder(holder@),
            Authorization::Capsule { capsule, owner, bump } => Authority::Capsule {
                capsule: capsule@,
                owner: owner@,
                bump,
            },
        }
    }
}

/// One atomic movement of `amount` units of the asset `mint`.
#[derive(Clone, Copy, Debug, PartialEq, Eq)]
pub struct TokenTransfer {
    pub mint: Address,
    pub amount: u64,
    pub from: Address,
    pub to: Address,
    pub authority: Authorization,
}

/// The mathematical content of a [`TokenTransfer`].
pub struct Transfer {
    pub mint: Seq<u8>,
    pub amount: nat,
    pub from: Seq<u8>,
    pub to: Seq<u8>,
    pub authority: Authority,
}

impl View for TokenTransfer {
    type V = Transfer;

    open spec fn view(&self) -> Transfer {
        Transfer {
            mint: self.mint@,
            amount: self.amount as nat,
            from: self.from@,
            to: self.to@,
            authority: self.authority@,
        }
    }
}

/// Why the host could not make a transfer.
#[derive(Clone, Copy, Debug, PartialEq, Eq, Structural)]
pub struct TransferError {
    pub code: u64,
}

/// What became of a transfer that a capsule operation asked for.
#[derive(Clone, Copy, Debug, PartialEq, Eq, Structural)]
pub enum TransferOutcome {
    /// The host made no transfer.
    NotAttempted,
    /// The transfer was made.
    Completed,
    /// The host tried and failed; nothing moved.
    Failed(TransferError),
}

/// Units of one asset held by each holder.
pub type Balances = Map<Seq<u8>, nat>;

/// What `holder` has; nothing where it is not listed.
pub open spec fn balance(balances: Balances, holder: Seq<u8>) -> nat {
    if balances.dom().contains(holder) {
        balances[holder]
    } else {
        0
    }
}

/// A transfer can be made where the sender holds the amount.
pub open spec fn can_apply(balances: Balances, t: Transfer) -> bool {
    balance(balances, t.from) >= t.amount
}

/// The balances after `t`.
pub open spec fn apply(balances: Balances, t: Transfer) -> Balances {
    let taken = balances.insert(t.from, (balance(balances, t.from) - t.amount) as nat);
    taken.insert(t.to, balance(taken, t.to) + t.amount)
}

/// `back` returns what `forth` moved: the same amount of the same asset,
/// the other way.
pub open spec fn reverses(back: Transfer, forth: Transfer) -> bool {
    &&& back.mint == forth.mint
    &&& back.amount == forth.amount
    &&& back.from == forth.to
    &&& back.to == forth.from
}

/// A transfer followed by its reverse leaves every holder with what it had.
pub proof fn lemma_reverse_restores(balances: Balances, forth: Transfer, back: Transfer)
    requires
        can_apply(balances, forth),
        reverses(back, forth),
    ensures
        can_apply(apply(balances, forth), back),
        forall|holder: Seq<u8>|
            balance(apply(apply(balances, forth), back), holder) == balance(balances, holder),
{
    let mid = apply(balances, forth);
    assert(balance(mid, forth.to) >= forth.amount);
    assert forall|holder: Seq<u8>|
        balance(apply(mid, back), holder) == balance(balances, holder) by {
        if holder == forth.from {
        } else if holder == forth.to {
        } else {
        }
    }
}

} // verus!
