//! The vault authority: the address that funds leave the vault under, and its
//! derivation.

use vstd::prelude::*;
use crate::pubkey::Pubkey;

verus! {

/// The label from which the vault authority's address is derived: the bytes
/// of `vault_authority`.
pub const VAULT_AUTHORITY_SEED: [u8; 15] = [
    118, 97, 117, 108, 116, 95, 97, 117, 116, 104, 111, 114, 105, 116, 121,
];

/// The address that the ledger derives for a program from a list of seeds,
/// together with the bump seed that completes the derivation, or `None`
/// where no bump seed gives an address.
///
/// The derivation is the ledger's own; the vault knows it only by name.
pub uninterp spec fn program_address(seeds: Seq<Seq<u8>>, program_id: Seq<u8>) -> Option<
    (Seq<u8>, u8),
>;

/// A list of seeds as the byte sequences it holds.
pub open spec fn seed_bytes(seeds: Seq<Vec<u8>>) -> Seq<Seq<u8>> {
    seeds.map_values(|seed: Vec<u8>| seed@)
}

/// The seeds of the vault authority: its label and nothing else.
pub open spec fn vault_authority_seeds() -> Seq<Seq<u8>> {
    seq![VAULT_AUTHORITY_SEED@]
}

/// Calls `Pubkey::try_find_program_address` of `anchor_lang` (which hands on
/// the function of `solana_program`).
///
/// Trusted: the result is the derivation named `program_address`, applied to
/// the same seeds and program. The outside function hashes the seeds, a bump
/// seed and the program's bytes and searches the bump seeds downwards; it
/// reads nothing else and does not panic.
#[verifier::external_body]
fn find_program_address(seeds: &Vec<Vec<u8>>, program_id: &Pubkey) -> (found: Option<(Pubkey, u8)>)
    ensures
        found matches Some((address, bump)) ==> program_address(seed_bytes(seeds@), program_id@)
            == Some((address@, bump)),
        found is None ==> program_address(seed_bytes(seeds@), program_id@) is None,
{
    let id = anchor_lang::prelude::Pubkey::new_from_array(program_id.bytes);
    let slices: Vec<&[u8]> = seeds.iter().map(|seed| seed.as_slice()).collect();
    match anchor_lang::prelude::Pubkey::try_find_program_address(&slices, &id) {
        Some((key, bump)) => Some((Pubkey { bytes: key.to_bytes() }, bump)),
        None => None,
    }
}

/// The capability to move funds out of the vault's own accounts.
///
/// Nobody holds a secret for it. It is the address derived for the vault's
/// program from the label `vault_authority`, together with the bump seed that
/// proves the derivation; the host lets a transfer act as that address when
/// it is handed the label and the bump seed. A value of this type always
/// holds the address and bump seed that the derivation gives for its program.
#[derive(Clone, Copy, Debug, PartialEq, Eq)]
pub struct VaultAuthorization {
    program_id: Pubkey,
    address: Pubkey,
    bump: u8,
}

impl VaultAuthorization {
    #[verifier::type_invariant]
    spec fn is_derived(self) -> bool {
        program_address(vault_authority_seeds(), self.program_id@) == Some(
            (self.address@, self.bump),
        )
    }

    /// The program whose vault this capability controls.
    pub closed spec fn spec_program_id(&self) -> Pubkey {
        self.program_id
    }

    /// The address that transfers out of the vault act as.
    pub closed spec fn spec_address(&self) -> Pubkey {
        self.address
    }

    /// The bump seed that proves the derivation.
    pub closed spec fn spec_bump(&self) -> u8 {
        self.bump
    }

    /// The seeds that the host needs to let a transfer act as the vault
    /// authority: the label, then the bump seed.
    pub open spec fn spec_signer_seeds(&self) -> Seq<Seq<u8>> {
        seq![VAULT_AUTHORITY_SEED@, seq![self.spec_bump()]]
    }

    /// Derives the vault authority of a program.
    ///
    /// Returns the capability exactly when the derivation gives an address,
    /// and then with that address and bump seed.
    pub fn derive(program_id: &Pubkey) -> (r: Option<VaultAuthorization>)
        ensures
            r is Some <==> program_address(vault_authority_seeds(), program_id@) is Some,
            r matches Some(authorization) ==> {
                &&& authorization.spec_program_id() == *program_id
                &&& program_address(vault_authority_seeds(), program_id@) == Some(
                    (authorization.spec_address()@, authorization.spec_bump()),
                )
            },
    {
        let label: Vec<u8> = label_bytes();
        let mut seeds: Vec<Vec<u8>> = Vec::new();
        seeds.push(label);
        assert(seed_bytes(seeds@) =~= vault_authority_seeds());
        match find_program_address(&seeds, program_id) {
            Some((address, bump)) => Some(
                VaultAuthorization { program_id: *program_id, address, bump },
            ),
            None => None,
        }
    }

    /// Derives the vault authority of a program and holds it against the
    /// address and bump seed that a request names for it.
    ///
    /// Returns the capability exactly when the derivation gives that address
    /// with that bump seed.
    pub fn verify(program_id: &Pubkey, address: &Pubkey, bump: u8) -> (r: Option<VaultAuthorization>)
        ensures
            r is Some <==> program_address(vault_authority_seeds(), program_id@) == Some(
                (address@, bump),
            ),
            r matches Some(authorization) ==> {
                &&& authorization.spec_program_id() == *program_id
                &&& authorization.spec_address() == *address
                &&& authorization.spec_bump() == bump
            },
    {
        match VaultAuthorization::derive(program_id) {
            Some(authorization) => {
                proof {
                    Pubkey::lemma_view_injective(authorization.address, *address);
                }
                if authorization.address == *address && authorization.bump == bump {
                    Some(authorization)
                } else {
                    None
                }
            },
            None => None,
        }
    }

    /// The program whose vault this capability controls.
    #[verifier::when_used_as_spec(spec_program_id)]
    pub fn program_id(&self) -> (id: Pubkey)
        ensures
            id == self.spec_program_id(),
    {
        self.program_id
    }

    /// The address that transfers out of the vault act as. It is the one the
    /// derivation gives for the program.
    #[verifier::when_used_as_spec(spec_address)]
    pub fn address(&self) -> (address: Pubkey)
        ensures
            address == self.spec_address(),
            program_address(vault_authority_seeds(), self.spec_program_id()@) == Some(
                (address@, self.spec_bump()),
            ),
    {
        proof {
            use_type_invariant(self);
        }
        self.address
    }

    /// The bump seed that proves the derivation.
    #[verifier::when_used_as_spec(spec_bump)]
    pub fn bump(&self) -> (bump: u8)
        ensures
            bump == self.spec_bump(),
    {
        self.bump
    }

    /// The seeds to hand to the host with a transfer out of the vault: the
    /// label, then the bump seed.
    pub fn signer_seeds(&self) -> (seeds: Vec<Vec<u8>>)
        ensures
            seed_bytes(seeds@) == self.spec_signer_seeds(),
    {
        let label: Vec<u8> = label_bytes();
        let mut bump_seed: Vec<u8> = Vec::new();
        bump_seed.push(self.bump);
        let mut seeds: Vec<Vec<u8>> = Vec::new();
        assert(bump_seed@ =~= seq![self.bump]);
        seeds.push(label);
        seeds.push(bump_seed);
        assert(seed_bytes(seeds@) =~= self.spec_signer_seeds());
        seeds
    }
}

/// The label as owned bytes.
fn label_bytes() -> (label: Vec<u8>)
    ensures
        label@ == VAULT_AUTHORITY_SEED@,
{
    let mut label: Vec<u8> = Vec::new();
    let mut i: usize = 0;
    while i < 15
        invariant
            i <= 15,
            label@ == VAULT_AUTHORITY_SEED@.subrange(0, i as int),
        decreases 15 - i,
    {
        label.push(VAULT_AUTHORITY_SEED[i]);
        i += 1;
    }
    assert(VAULT_AUTHORITY_SEED@.subrange(0, 15) =~= VAULT_AUTHORITY_SEED@);
    label
}

} // verus!
