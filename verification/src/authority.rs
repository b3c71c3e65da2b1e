//! The derived authority: the address that controls an escrow's record and
//! custody account. It is computed from the domain tag, the maker, the nonce
//! and the bump, so no party holds a key for it.

use crate::state::{escrow_seed, Escrow, Identity, ESCROW_SEED};
use vstd::bytes::{spec_u64_to_le_bytes, u64_to_le_bytes};
use vstd::prelude::*;

verus! {

/// The seeds from which the authority of (maker, nonce) is derived, in order:
/// the domain tag, the maker's bytes, the nonce in little-endian order, and the
/// bump.
pub open spec fn authority_seeds(maker: Seq<u8>, nonce: u64, bump: u8) -> Seq<Seq<u8>> {
    seq![escrow_seed(), maker, spec_u64_to_le_bytes(nonce), seq![bump]]
}

/// What a list of byte strings holds.
pub open spec fn seeds_view(seeds: &Vec<Vec<u8>>) -> Seq<Seq<u8>> {
    Seq::new(seeds@.len(), |i: int| seeds@[i]@)
}

/// The address that the ledger derives for a program from a list of seeds, if
/// the seeds yield one.
pub uninterp spec fn program_address(seeds: Seq<Seq<u8>>, program: Seq<u8>) -> Option<Seq<u8>>;

/// The authority of a record under a program, if the record's nonce and bump
/// yield one.
pub open spec fn authority_of(program: Identity, record: Escrow) -> Option<Seq<u8>> {
    program_address(authority_seeds(record.maker@, record.seed, record.bump), program@)
}

/// The identity with the given bytes.
pub open spec fn identity_with(bytes: Seq<u8>) -> Identity {
    choose|id: Identity| id@ == bytes
}

/// The identity that an optional address stands for.
pub open spec fn resolved(address: Option<Seq<u8>>) -> Option<Identity> {
    match address {
        Some(bytes) => Some(identity_with(bytes)),
        None => None,
    }
}

/// The identity with the bytes of `id` is `id`.
pub proof fn identity_with_view(id: Identity)
    ensures
        identity_with(id@) == id,
{
    let picked = identity_with(id@);
    assert(picked@ == id@);
    crate::state::identity_by_bytes(picked, id);
}

/// The domain tag as bytes.
fn domain_tag() -> (tag: Vec<u8>)
    ensures
        tag@ == escrow_seed(),
{
    let mut tag: Vec<u8> = Vec::new();
    let mut i: usize = 0;
    while i < 6
        invariant
            i <= 6,
            tag@ == escrow_seed().take(i as int),
        decreases 6 - i,
    {
        tag.push(ESCROW_SEED[i]);
        proof {
            assert(tag@ =~= escrow_seed().take(i as int + 1));
        }
        i += 1;
    }
    proof {
        assert(escrow_seed().take(6) =~= escrow_seed());
    }
    tag
}

/// The seeds that reproduce the authority of (maker, nonce) with the given
/// bump.
pub fn signer_seeds(maker: &Identity, nonce: u64, bump: u8) -> (seeds: Vec<Vec<u8>>)
    ensures
        seeds_view(&seeds) == authority_seeds(maker@, nonce, bump),
{
    let mut last: Vec<u8> = Vec::new();
    last.push(bump);
    let mut seeds: Vec<Vec<u8>> = Vec::new();
    seeds.push(domain_tag());
    seeds.push(maker.to_vec());
    seeds.push(u64_to_le_bytes(nonce));
    seeds.push(last);
    proof {
        assert(last@ =~= seq![bump]);
        assert(seeds_view(&seeds) =~= authority_seeds(maker@, nonce, bump));
    }
    seeds
}

/// Calls `Pubkey::create_program_address` of `anchor_lang`'s prelude. The
/// address it returns is a function of the seeds and the program alone; when it
/// reports an error (too many seeds, a seed that is too long, or seeds that
/// yield a point on the curve) there is no address.
#[verifier::external_body]
fn create_program_address(seeds: &Vec<Vec<u8>>, program: &Identity) -> (address: Option<Identity>)
    ensures
        match address {
            Some(id) => program_address(seeds_view(seeds), program@) == Some(id@),
            None => program_address(seeds_view(seeds), program@).is_none(),
        },
{
    let slices: Vec<&[u8]> = seeds.iter().map(|seed| seed.as_slice()).collect();
    let program_id = anchor_lang::prelude::Pubkey::new_from_array(program.bytes);
    match anchor_lang::prelude::Pubkey::create_program_address(&slices, &program_id) {
        Ok(key) => Some(Identity { bytes: key.to_bytes() }),
        Err(_) => None,
    }
}

/// The authority of a record under a program: the address that controls the
/// record and its custody account. `None` when the stored nonce and bump yield
/// no address.
pub fn derived_authority(program: &Identity, record: &Escrow) -> (authority: Option<Identity>)
    ensures
        authority == resolved(authority_of(*program, *record)),
        match authority {
            Some(id) => authority_of(*program, *record) == Some(id@),
            None => authority_of(*program, *record).is_none(),
        },
{
    let seeds = signer_seeds(&record.maker, record.seed, record.bump);
    let address = create_program_address(&seeds, program);
    proof {
        if let Some(id) = address {
            identity_with_view(id);
        }
    }
    address
}

/// Whether `address` is the authority of the record under the program.
pub fn is_authority(program: &Identity, record: &Escrow, address: &Identity) -> (yes: bool)
    ensures
        yes == (authority_of(*program, *record) == Some(address@)),
{
    match derived_authority(program, record) {
        Some(authority) => {
            proof {
                crate::state::identity_by_bytes(authority, *address);
                identity_with_view(authority);
                identity_with_view(*address);
            }
            authority == *address
        },
        None => false,
    }
}

} // verus!
