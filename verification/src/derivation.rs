//! Derived addresses and the authority that comes with them.
//!
//! An account address is derived from a fixed tag, the owner's identity and
//! the identity of the program that controls the account. No private key
//! belongs to such an address: whoever presents the tag, the owner and the
//! derivation counter (the bump) from which the address derives is taken to
//! control it.

use crate::address::Address;
use anchor_lang::prelude::Pubkey;
use vstd::prelude::*;

verus! {

/// What the address search yields for a tag, an owner and a program, each
/// given by its bytes: the derived address with its bump, or nothing where the
/// search finds no address.
pub uninterp spec fn program_address(tag: Seq<u8>, owner: Seq<u8>, program: Seq<u8>) -> Option<
    (Seq<u8>, u8),
>;

/// Calls `Pubkey::try_find_program_address` with the seeds `tag` and `owner`.
///
/// The search hashes its arguments and tests the hash against the signing
/// curve, so its result depends on the three arguments alone: the contract
/// names that result `program_address` and claims nothing else of it.
#[verifier::external_body]
fn find_program_address(tag: &[u8], owner: &[u8; 32], program: &[u8; 32]) -> (found: Option<
    ([u8; 32], u8),
>)
    ensures
        found_view(found) == program_address(tag@, owner@, program@),
{
    let program_id = Pubkey::new_from_array(*program);
    Pubkey::try_find_program_address(&[tag, &owner[..]], &program_id).map(
        |(address, bump)| (address.to_bytes(), bump),
    )
}

/// A search result with its address taken by its bytes.
spec fn found_view(found: Option<([u8; 32], u8)>) -> Option<(Seq<u8>, u8)> {
    match found {
        Some((address, bump)) => Some((address@, bump)),
        None => None,
    }
}

/// A derivation with its address taken by its bytes.
pub open spec fn derivation_view(derived: Option<(Address, u8)>) -> Option<(Seq<u8>, u8)> {
    match derived {
        Some((address, bump)) => Some((address@, bump)),
        None => None,
    }
}

/// Derives the address, and its bump, of the account that `program` keeps
/// under `tag` for `owner`.
pub fn derive_address(tag: &[u8], owner: &Address, program: &Address) -> (derived: Option<(Address, u8)>)
    ensures
        derivation_view(derived) == program_address(tag@, owner@, program@),
{
    match find_program_address(tag, &owner.bytes, &program.bytes) {
        Some((bytes, bump)) => Some((Address::new(bytes), bump)),
        None => None,
    }
}

/// The tag under which a vault account is derived: the bytes of `vault`.
pub const VAULT_TAG: [u8; 5] = [118, 97, 117, 108, 116];

/// The tag under which a record account is derived: the bytes of `state`.
pub const STATE_TAG: [u8; 5] = [115, 116, 97, 116, 101];

/// The bump of a derivation whose address is `account`, or nothing where the
/// derivation found no address or another one.
pub open spec fn bump_for(derived: Option<(Seq<u8>, u8)>, account: Address) -> Option<u8> {
    match derived {
        Some((address, bump)) => if address == account@ {
            Some(bump)
        } else {
            None
        },
        None => None,
    }
}

/// The bump with which `account` derives from `tag` and `owner` under
/// `program`, or nothing where `account` is not the address derived from them.
pub open spec fn derived_bump(tag: Seq<u8>, owner: Address, program: Address, account: Address)
    -> Option<u8> {
    bump_for(program_address(tag, owner@, program@), account)
}

/// Tests a derivation against the account that a caller supplied, and
/// returns the derivation's bump where its address is that account.
pub fn matching_bump(derived: Option<(Address, u8)>, account: &Address) -> (bump: Option<u8>)
    ensures
        bump == bump_for(derivation_view(derived), *account),
{
    match derived {
        Some((address, bump)) => {
            if address.same_as(account) {
                Some(bump)
            } else {
                None
            }
        },
        None => None,
    }
}

/// Tests whether `account` is the address derived from `tag` and `owner`
/// under `program`, and returns the bump of the derivation if it is.
pub fn check_derived(tag: &[u8], owner: &Address, program: &Address, account: &Address) -> (bump:
    Option<u8>)
    ensures
        bump == derived_bump(tag@, *owner, *program, *account),
{
    matching_bump(derive_address(tag, owner, program), account)
}

/// The seeds that stand for a key: whoever presents the tag, the owner and
/// the bump from which an address derives may debit the account at it.
#[derive(Debug)]
pub struct AuthorityProof {
    pub tag: Vec<u8>,
    pub owner: Address,
    pub bump: u8,
}

/// An authority proof as a mathematical value.
pub struct AuthorityProofView {
    pub tag: Seq<u8>,
    pub owner: Address,
    pub bump: u8,
}

impl View for AuthorityProof {
    type V = AuthorityProofView;

    open spec fn view(&self) -> AuthorityProofView {
        AuthorityProofView { tag: self.tag@, owner: self.owner, bump: self.bump }
    }
}

impl AuthorityProofView {
    /// Whether the proof gives control of `account` under `program`: the
    /// address derived from its tag and owner is `account`, with its bump.
    pub open spec fn controls(self, program: Address, account: Address) -> bool {
        derived_bump(self.tag, self.owner, program, account) == Some(self.bump)
    }
}

/// Makes the authority proof for the account derived from `tag` and `owner`
/// with `bump`.
pub fn authorize(tag: &[u8], owner: &Address, bump: u8) -> (proof: AuthorityProof)
    ensures
        proof@ == (AuthorityProofView { tag: tag@, owner: *owner, bump }),
{
    AuthorityProof { tag: vstd::slice::slice_to_vec(tag), owner: *owner, bump }
}

impl AuthorityProof {
    /// Derives the address anew from the proof's seeds and tests it, and the
    /// bump, against `account` and the proof.
    pub fn controls(&self, program: &Address, account: &Address) -> (valid: bool)
        ensures
            valid == self@.controls(*program, *account),
    {
        match check_derived(self.tag.as_slice(), &self.owner, program, account) {
            Some(bump) => bump == self.bump,
            None => false,
        }
    }
}

} // verus!
