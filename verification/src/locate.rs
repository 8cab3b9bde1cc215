use vstd::prelude::*;
use vstd::bytes::{spec_u64_to_le_bytes, u64_to_le_bytes};
use crate::address::Address;
use anchor_lang::prelude::Pubkey;

verus! {

/// What `Pubkey::try_find_program_address` returns for a list of seeds and a
/// program id: the derived address with its bump seed, or nothing.
pub uninterp spec fn program_address(seeds: Seq<Seq<u8>>, program: Seq<u8>) -> Option<([u8; 32], u8)>;

/// The location that a seed list derives under a program, over addresses.
pub open spec fn located(seeds: Seq<Seq<u8>>, program: Address) -> Option<(Address, u8)> {
    match program_address(seeds, program@) {
        Some((bytes, bump)) => Some((Address { bytes }, bump)),
        None => None,
    }
}

/// The views of a list of byte buffers.
pub open spec fn seeds_view(seeds: Seq<Vec<u8>>) -> Seq<Seq<u8>> {
    Seq::new(seeds.len(), |i: int| seeds[i]@)
}

/// Calls `Pubkey::try_find_program_address` of solana-program (reached as
/// `anchor_lang::prelude::Pubkey`). Trusted: the outcome is a function of the
/// seeds and the program id alone, which `program_address` names. Nothing is
/// claimed about which address comes out.
#[verifier::external_body]
fn try_find_program_address(seeds: &Vec<Vec<u8>>, program: &Address) -> (r: Option<(Address, u8)>)
    ensures
        match r {
            Some((a, bump)) => program_address(seeds_view(seeds@), program@) == Some((a.bytes, bump)),
            None => program_address(seeds_view(seeds@), program@) is None,
        },
{
    let parts: Vec<&[u8]> = seeds.iter().map(|s| s.as_slice()).collect();
    let id = Pubkey::new_from_array(program.bytes);
    Pubkey::try_find_program_address(&parts, &id).map(|(key, bump)| (Address { bytes: key.to_bytes() }, bump))
}

/// Derives the location of a seed list under `program`.
pub fn locate(seeds: &Vec<Vec<u8>>, program: &Address) -> (r: Option<(Address, u8)>)
    ensures
        r == located(seeds_view(seeds@), *program),
{
    try_find_program_address(seeds, program)
}

/// The bytes of the text `counter`.
pub open spec fn counter_tag() -> Seq<u8> {
    seq![99u8, 111u8, 117u8, 110u8, 116u8, 101u8, 114u8]
}

/// The bytes of the text `escrow`.
pub open spec fn escrow_tag() -> Seq<u8> {
    seq![101u8, 115u8, 99u8, 114u8, 111u8, 119u8]
}

/// The bytes of the text `metadata`.
pub open spec fn metadata_tag() -> Seq<u8> {
    seq![109u8, 101u8, 116u8, 97u8, 100u8, 97u8, 116u8, 97u8]
}

/// Seeds of a depositor's sequence counter: the tag, then the depositor.
pub open spec fn counter_seeds(user: Address) -> Seq<Seq<u8>> {
    seq![counter_tag(), user@]
}

/// Seeds of an escrow record: the tag, the depositor, and the sequence index
/// as eight little-endian bytes.
pub open spec fn escrow_seeds(user: Address, index: u64) -> Seq<Seq<u8>> {
    seq![escrow_tag(), user@, spec_u64_to_le_bytes(index)]
}

/// Seeds of the claim metadata of a receipt token: the tag, then the token id.
pub open spec fn metadata_seeds(nft_mint: Address) -> Seq<Seq<u8>> {
    seq![metadata_tag(), nft_mint@]
}

/// Where the sequence counter of `user` lives under `program`.
pub open spec fn counter_location(program: Address, user: Address) -> Option<(Address, u8)> {
    located(counter_seeds(user), program)
}

/// Where the escrow record of `user` with sequence index `index` lives.
pub open spec fn escrow_location(program: Address, user: Address, index: u64) -> Option<(Address, u8)> {
    located(escrow_seeds(user, index), program)
}

/// Where the claim metadata of receipt token `nft_mint` lives.
pub open spec fn metadata_location(program: Address, nft_mint: Address) -> Option<(Address, u8)> {
    located(metadata_seeds(nft_mint), program)
}

/// Computes the location of the sequence counter of `user`.
pub fn counter_address(program: &Address, user: &Address) -> (r: Option<(Address, u8)>)
    ensures
        r == counter_location(*program, *user),
{
    let mut seeds: Vec<Vec<u8>> = Vec::new();
    seeds.push(vec![99u8, 111u8, 117u8, 110u8, 116u8, 101u8, 114u8]);
    seeds.push(user.to_vec());
    proof {
        assert(seeds_view(seeds@) =~= counter_seeds(*user));
    }
    locate(&seeds, program)
}

/// The seed list of the escrow record of `user` numbered `index`, as buffers.
fn escrow_seed_list(user: &Address, index: u64) -> (seeds: Vec<Vec<u8>>)
    ensures
        seeds_view(seeds@) == escrow_seeds(*user, index),
{
    let mut seeds: Vec<Vec<u8>> = Vec::new();
    seeds.push(vec![101u8, 115u8, 99u8, 114u8, 111u8, 119u8]);
    seeds.push(user.to_vec());
    seeds.push(u64_to_le_bytes(index));
    proof {
        assert(seeds_view(seeds@) =~= escrow_seeds(*user, index));
    }
    seeds
}

/// Computes the location of the escrow record of `user` numbered `index`.
pub fn escrow_address(program: &Address, user: &Address, index: u64) -> (r: Option<(Address, u8)>)
    ensures
        r == escrow_location(*program, *user, index),
{
    let seeds = escrow_seed_list(user, index);
    locate(&seeds, program)
}

/// The seeds with which the engine signs for the escrow record of `user`
/// numbered `index`: the record's own seeds, then its bump seed. No private
/// key goes with them.
pub fn escrow_signer_seeds(user: &Address, index: u64, bump: u8) -> (seeds: Vec<Vec<u8>>)
    ensures
        seeds_view(seeds@) == escrow_seeds(*user, index).push(seq![bump]),
{
    let mut seeds = escrow_seed_list(user, index);
    let ghost own = seeds@;
    seeds.push(vec![bump]);
    proof {
        let signed = escrow_seeds(*user, index).push(seq![bump]);
        assert(seeds_view(own).len() == 3);
        assert forall|i: int| 0 <= i < 4 implies seeds_view(seeds@)[i] == signed[i] by {
            if i < 3 {
                assert(seeds@[i] == own[i]);
                assert(seeds_view(own)[i] == own[i]@);
            } else {
                assert(seeds@[3]@ =~= seq![bump]);
            }
        }
        assert(seeds_view(seeds@) =~= signed);
    }
    seeds
}

/// Computes the location of the claim metadata of receipt token `nft_mint`.
pub fn metadata_address(program: &Address, nft_mint: &Address) -> (r: Option<(Address, u8)>)
    ensures
        r == metadata_location(*program, *nft_mint),
{
    let mut seeds: Vec<Vec<u8>> = Vec::new();
    seeds.push(vec![109u8, 101u8, 116u8, 97u8, 100u8, 97u8, 116u8, 97u8]);
    seeds.push(nft_mint.to_vec());
    proof {
        assert(seeds_view(seeds@) =~= metadata_seeds(*nft_mint));
    }
    locate(&seeds, program)
}

} // verus!
