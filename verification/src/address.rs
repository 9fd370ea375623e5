//! Identities and the deterministic addresses derived from them.

use anchor_lang::prelude::Pubkey;
use vstd::prelude::*;

verus! {

/// Longest tag, in bytes, under which an address can be derived.
pub const MAX_SEED_LEN: usize = 32;

/// The program under which every capsule address is derived.
pub const ID: [u8; 32] = [
    44, 221, 82, 117, 252, 23, 134, 223, 142, 181, 23, 227, 115, 177, 12, 109, 203, 161, 111, 203,
    13, 5, 163, 241, 126, 123, 49, 203, 125, 112, 88, 106,
];

/// The program that moves token value.
pub const TOKEN_PROGRAM_ID: [u8; 32] = [
    6, 221, 246, 225, 215, 101, 161, 147, 217, 203, 225, 70, 206, 235, 121, 172, 28, 180, 133,
    237, 95, 91, 55, 145, 58, 140, 245, 133, 126, 255, 0, 169,
];

/// A 32-byte identity: an owner, an asset, a program, or a derived address.
#[derive(Clone, Copy, Debug, PartialEq, Eq, Hash)]
pub struct Address {
    pub bytes: [u8; 32],
}

impl View for Address {
    type V = Seq<u8>;

    open spec fn view(&self) -> Seq<u8> {
        self.bytes@
    }
}

/// The view of an address that may be absent.
pub open spec fn address_view(a: Option<Address>) -> Option<Seq<u8>> {
    match a {
        Some(a) => Some(a@),
        None => None,
    }
}

impl Address {
    /// Wraps 32 raw bytes.
    pub fn new(bytes: [u8; 32]) -> (a: Address)
        ensures
            a@ == bytes@,
            a.bytes == bytes,
    {
        Address { bytes }
    }

    /// The 32 raw bytes.
    pub fn to_bytes(&self) -> (bytes: [u8; 32])
        ensures
            bytes@ == self@,
            bytes == self.bytes,
    {
        self.bytes
    }

    /// Byte-wise comparison.
    pub fn same_as(&self, other: &Address) -> (same: bool)
        ensures
            same == (self@ == other@),
            same == (*self == *other),
    {
        let mut i: usize = 0;
        while i < 32
            invariant
                i <= 32,
                forall|j: int| 0 <= j < i ==> self.bytes@[j] == other.bytes@[j],
            decreases 32 - i,
        {
            if self.bytes[i] != other.bytes[i] {
                return false;
            }
            i += 1;
        }
        assert(self.bytes@ =~= other.bytes@);
        assert(self.bytes =~= other.bytes);
        true
    }
}

/// The address and bump seed that `Pubkey::try_find_program_address` finds
/// for a list of seeds under a program, or `None` where it finds none.
pub uninterp spec fn program_address(seeds: Seq<Seq<u8>>, program: Seq<u8>) -> Option<(Seq<u8>, u8)>;

/// Calls `Pubkey::try_find_program_address` with the two seeds `tag` and
/// `seed`. Trusted: the result is the named one for these arguments, and
/// there is none where the tag is longer than [`MAX_SEED_LEN`], because the
/// search then stops at its first attempt.
#[verifier::external_body]
fn try_find_program_address(
    tag: &[u8],
    seed: &[u8; 32],
    program: &[u8; 32],
) -> (found: Option<([u8; 32], u8)>)
    ensures
        match found {
            Some((key, bump)) => program_address(seq![tag@, seed@], program@) == Some((key@, bump)),
            None => program_address(seq![tag@, seed@], program@) is None,
        },
        tag@.len() > MAX_SEED_LEN ==> found is None,
{
    let program = Pubkey::new_from_array(*program);
    match Pubkey::try_find_program_address(&[tag, seed.as_slice()], &program) {
        Some((key, bump)) => Some((key.to_bytes(), bump)),
        None => None,
    }
}

/// A derived address together with the bump seed that completes its seeds.
#[derive(Clone, Copy, Debug, PartialEq, Eq)]
pub struct DerivedAddress {
    pub address: Address,
    pub bump: u8,
}

/// The address, with its bump seed, that belongs to `owner` under the
/// namespace `tag`, if there is one.
pub open spec fn derived(tag: Seq<u8>, owner: Seq<u8>) -> Option<(Seq<u8>, u8)> {
    program_address(seq![tag, owner], ID@)
}

/// The namespace of capsule records: the bytes of `time_capsule`.
pub open spec fn capsule_tag() -> Seq<u8> {
    seq![116u8, 105u8, 109u8, 101u8, 95u8, 99u8, 97u8, 112u8, 115u8, 117u8, 108u8, 101u8]
}

/// The namespace of escrow accounts: the bytes of `token_account`.
pub open spec fn escrow_tag() -> Seq<u8> {
    seq![
        116u8, 111u8, 107u8, 101u8, 110u8, 95u8, 97u8, 99u8, 99u8, 111u8, 117u8, 110u8, 116u8,
    ]
}

/// The address under which the capsule of `owner` is kept.
pub open spec fn capsule_address_of(owner: Seq<u8>) -> Option<(Seq<u8>, u8)> {
    derived(capsule_tag(), owner)
}

/// The address of the escrow account of the capsule kept at `capsule`.
pub open spec fn escrow_address_of(capsule: Seq<u8>) -> Option<(Seq<u8>, u8)> {
    derived(escrow_tag(), capsule)
}

/// The program under which every capsule address is derived.
pub fn program_id() -> (id: Address)
    ensures
        id@ == ID@,
{
    Address { bytes: ID }
}

/// The program that moves token value.
pub fn token_program_id() -> (id: Address)
    ensures
        id@ == TOKEN_PROGRAM_ID@,
{
    Address { bytes: TOKEN_PROGRAM_ID }
}

/// Derives the address that belongs to `owner` under the namespace `tag`.
/// The same tag and owner give the same address every time; `None` where no
/// address exists for them, as for every tag longer than [`MAX_SEED_LEN`].
pub fn derive_address(tag: &[u8], owner: &Address) -> (found: Option<DerivedAddress>)
    ensures
        match found {
            Some(d) => derived(tag@, owner@) == Some((d.address@, d.bump)),
            None => derived(tag@, owner@) is None,
        },
        tag@.len() > MAX_SEED_LEN ==> found is None,
{
    match try_find_program_address(tag, &owner.bytes, &ID) {
        Some((key, bump)) => Some(DerivedAddress { address: Address { bytes: key }, bump }),
        None => None,
    }
}

/// Derives the address under which the capsule of `owner` is kept.
pub fn capsule_address(owner: &Address) -> (found: Option<DerivedAddress>)
    ensures
        match found {
            Some(d) => capsule_address_of(owner@) == Some((d.address@, d.bump)),
            None => capsule_address_of(owner@) is None,
        },
{
    let tag: [u8; 12] = [116, 105, 109, 101, 95, 99, 97, 112, 115, 117, 108, 101];
    assert(tag@ =~= capsule_tag());
    derive_address(tag.as_slice(), owner)
}

/// Derives the address of the escrow account of the capsule kept at
/// `capsule`.
pub fn escrow_address(capsule: &Address) -> (found: Option<DerivedAddress>)
    ensures
        match found {
            Some(d) => escrow_address_of(capsule@) == Some((d.address@, d.bump)),
            None => escrow_address_of(capsule@) is None,
        },
{
    let tag: [u8; 13] = [116, 111, 107, 101, 110, 95, 97, 99, 99, 111, 117, 110, 116];
    assert(tag@ =~= escrow_tag());
    derive_address(tag.as_slice(), capsule)
}

} // verus!
