//! Derived authority addresses: addresses that no private key can own, found
//! from a seed and the program's own identity by a search over the bump
//! seeds, with the bump seed that proves the derivation.

use vstd::prelude::*;
use crate::errors::USDvError;
use crate::identity::{
    identity_of_view, pubkey_create_program_address, seeds_view, spec_create_program_address,
    with_bump, DerivationError, Identity,
};

verus! {

/// What a list of seeds followed by a bump seed derives for a program,
/// without a search.
pub open spec fn derived(seeds: Seq<Seq<u8>>, program_id: Identity, bump: u8) -> Result<
    Seq<u8>,
    DerivationError,
> {
    spec_create_program_address(with_bump(seeds, bump), program_id@)
}

/// What the search settles on when it starts at `bump` and goes downwards:
/// the first bump seed with which the seeds derive an address, and that
/// address; or nothing, where none down to zero derives one.
pub open spec fn search_from(seeds: Seq<Seq<u8>>, program_id: Identity, bump: u8) -> Option<
    (Seq<u8>, u8),
>
    decreases bump,
{
    match derived(seeds, program_id, bump) {
        Ok(address) => Some((address, bump)),
        Err(_) => if bump == 0 {
            None
        } else {
            search_from(seeds, program_id, (bump - 1) as u8)
        },
    }
}

/// What the search over the whole space of bump seeds settles on, from 255
/// down to zero.
pub open spec fn search(seeds: Seq<Seq<u8>>, program_id: Identity) -> Option<(Seq<u8>, u8)> {
    search_from(seeds, program_id, 255)
}

/// The search settles on the first bump seed that derives an address: the
/// seeds followed by it derive the address that comes back, and followed by
/// any bump seed that was tried before it they derive none. Where the search
/// settles on nothing, no bump seed that was tried derives an address.
pub proof fn search_settles_on_the_first(seeds: Seq<Seq<u8>>, program_id: Identity, from: u8)
    ensures
        match search_from(seeds, program_id, from) {
            Some((address, bump)) => {
                &&& bump <= from
                &&& derived(seeds, program_id, bump) == Ok::<Seq<u8>, DerivationError>(address)
                &&& forall|larger: u8|
                    bump < larger <= from ==> (#[trigger] derived(seeds, program_id, larger)) is Err
            },
            None => forall|bump: u8|
                bump <= from ==> (#[trigger] derived(seeds, program_id, bump)) is Err,
        },
    decreases from,
{
    if derived(seeds, program_id, from) is Err && from > 0 {
        search_settles_on_the_first(seeds, program_id, (from - 1) as u8);
    }
}

/// Whether `outcome` is what deriving an authority from `seed` for the program
/// `program_id` gives: the address and bump seed that the search over all
/// bump seeds settles on, or `NoValidDerivation` where it settles on none.
pub open spec fn is_derivation(
    program_id: Identity,
    seed: Seq<u8>,
    outcome: Result<(Identity, u8), USDvError>,
) -> bool {
    match outcome {
        Ok((authority, bump)) => search(seq![seed], program_id) == Some((authority@, bump)),
        Err(e) => e == USDvError::NoValidDerivation && search(seq![seed], program_id) is None,
    }
}

/// What `seed` followed by `bump` derives for the program `program_id`,
/// without a search.
pub open spec fn rederivation(program_id: Identity, seed: Seq<u8>, bump: u8) -> Result<
    Seq<u8>,
    DerivationError,
> {
    derived(seq![seed], program_id, bump)
}

/// Whether `seed` followed by `bump` derives `authority` for the program
/// `program_id`, without a search.
pub open spec fn rederives(program_id: Identity, seed: Seq<u8>, bump: u8, authority: Identity) -> bool {
    rederivation(program_id, seed, bump) == Ok::<Seq<u8>, DerivationError>(authority@)
}

/// Derivation is a function of its inputs: two outcomes of deriving an
/// authority from the same seed for the same program are the same outcome,
/// address and bump seed alike.
pub proof fn derivation_is_deterministic(
    program_id: Identity,
    seed: Seq<u8>,
    first: Result<(Identity, u8), USDvError>,
    second: Result<(Identity, u8), USDvError>,
)
    requires
        is_derivation(program_id, seed, first),
        is_derivation(program_id, seed, second),
    ensures
        first == second,
{
    match (first, second) {
        (Ok((a, _)), Ok((b, _))) => {
            identity_of_view(a, b);
        },
        _ => {},
    }
}

/// An authority that was derived is confirmed when it is derived again from
/// the stored bump seed, and its bump seed is the first from 255 downwards
/// with which the seed derives an address.
pub proof fn derived_authority_rederives(program_id: Identity, seed: Seq<u8>, authority: Identity, bump: u8)
    requires
        is_derivation(program_id, seed, Ok::<(Identity, u8), USDvError>((authority, bump))),
    ensures
        rederives(program_id, seed, bump, authority),
        forall|larger: u8|
            larger > bump ==> (#[trigger] rederivation(program_id, seed, larger)) is Err,
{
    search_settles_on_the_first(seq![seed], program_id, 255);
}

/// Derivation fails only where the whole space is exhausted: where it ends
/// in `NoValidDerivation`, the seed derives an address with no bump seed
/// from zero to 255.
pub proof fn failed_derivation_exhausts_the_space(program_id: Identity, seed: Seq<u8>, bump: u8)
    requires
        is_derivation(
            program_id,
            seed,
            Err::<(Identity, u8), USDvError>(USDvError::NoValidDerivation),
        ),
    ensures
        rederivation(program_id, seed, bump) is Err,
{
    search_settles_on_the_first(seq![seed], program_id, 255);
}

/// Bytes of the token program's identity,
/// `TokenkegQfeZyiNwAJbNbGKPFXCWuBvf9Ss623VQ5DA`.
pub const TOKEN_PROGRAM_ID_BYTES: [u8; 32] = [
    6, 221, 246, 225, 215, 101, 161, 147, 217, 203, 225, 70, 206, 235, 121, 172, 28, 180, 133, 237,
    95, 91, 55, 145, 58, 140, 245, 133, 126, 255, 0, 169,
];

/// Bytes of the associated token account program's identity,
/// `ATokenGPvbdGVxr1b2hvZbsiqW5xWH25efTNsLJA8knL`.
pub const ASSOCIATED_TOKEN_PROGRAM_ID_BYTES: [u8; 32] = [
    140, 151, 37, 143, 78, 36, 137, 241, 187, 61, 16, 41, 20, 142, 13, 131, 11, 90, 19, 153, 218,
    255, 16, 132, 4, 142, 123, 216, 219, 233, 248, 89,
];

/// The address of the token account that is associated with a wallet for a
/// mint: the address that the associated token account program derives from
/// the wallet, the token program and the mint. That program tries the bump
/// seeds from 255 down to 1, so an address that only the bump seed zero
/// derives is none of its addresses.
pub open spec fn spec_associated_token_address(wallet: Identity, mint: Identity) -> Option<Seq<u8>> {
    match search(
        seq![wallet@, TOKEN_PROGRAM_ID_BYTES@, mint@],
        Identity { bytes: ASSOCIATED_TOKEN_PROGRAM_ID_BYTES },
    ) {
        Some((address, bump)) => if bump >= 1 {
            Some(address)
        } else {
            None
        },
        None => None,
    }
}

/// Derives the address of the token account that is associated with
/// `wallet_address` for `token_mint_address`. No address comes back where no
/// bump seed from 255 down to 1 derives one.
pub fn get_associated_token_address(wallet_address: &Identity, token_mint_address: &Identity) -> (r:
    Option<Identity>)
    ensures
        match r {
            Some(address) => spec_associated_token_address(*wallet_address, *token_mint_address)
                == Some(address@),
            None => spec_associated_token_address(*wallet_address, *token_mint_address) is None,
        },
{
    let mut seeds: Vec<Vec<u8>> = Vec::new();
    seeds.push(copy_bytes(&wallet_address.bytes));
    seeds.push(copy_bytes(&TOKEN_PROGRAM_ID_BYTES));
    seeds.push(copy_bytes(&token_mint_address.bytes));
    let program = Identity { bytes: ASSOCIATED_TOKEN_PROGRAM_ID_BYTES };
    proof {
        assert(seeds_view(seeds@) =~= seq![
            wallet_address@,
            TOKEN_PROGRAM_ID_BYTES@,
            token_mint_address@,
        ]);
    }
    match find_derived_address(&seeds, &program) {
        Some((address, bump)) => {
            if bump >= 1 {
                Some(address)
            } else {
                None
            }
        },
        None => None,
    }
}

/// The seeds of a list, followed by a bump seed as one more seed of one byte.
fn seeds_followed_by(seeds: &Vec<Vec<u8>>, bump: u8) -> (r: Vec<Vec<u8>>)
    ensures
        seeds_view(r@) == with_bump(seeds_view(seeds@), bump),
{
    let mut out: Vec<Vec<u8>> = Vec::new();
    let mut i: usize = 0;
    while i < seeds.len()
        invariant
            i <= seeds.len(),
            out@.len() == i,
            forall|j: int| 0 <= j < i ==> out@[j]@ == seeds@[j]@,
        decreases seeds.len() - i,
    {
        out.push(copy_bytes(seeds[i].as_slice()));
        i += 1;
    }
    let mut last: Vec<u8> = Vec::new();
    last.push(bump);
    assert(last@ =~= seq![bump]);
    out.push(last);
    proof {
        let made = seeds_view(out@);
        let wanted = with_bump(seeds_view(seeds@), bump);
        assert(made.len() == wanted.len());
        assert forall|j: int| 0 <= j < made.len() implies made[j] == wanted[j] by {
            if j < seeds@.len() {
                assert(out@[j]@ == seeds@[j]@);
            }
        }
        assert(made =~= wanted);
    }
    out
}

/// Searches the bump seeds from 255 down to zero for the first with which
/// the seeds derive an address for `program_id`.
pub fn find_derived_address(seeds: &Vec<Vec<u8>>, program_id: &Identity) -> (r: Option<
    (Identity, u8),
>)
    ensures
        match r {
            Some((address, bump)) => search(seeds_view(seeds@), *program_id) == Some(
                (address@, bump),
            ),
            None => search(seeds_view(seeds@), *program_id) is None,
        },
{
    let mut bump: u8 = 255;
    loop
        invariant
            search(seeds_view(seeds@), *program_id) == search_from(
                seeds_view(seeds@),
                *program_id,
                bump,
            ),
        decreases bump,
    {
        let candidate = seeds_followed_by(seeds, bump);
        match pubkey_create_program_address(&candidate, program_id) {
            Ok(address) => {
                return Some((address, bump));
            },
            Err(_) => {},
        }
        if bump == 0 {
            return None;
        }
        bump = bump - 1;
    }
}

/// A copy of the bytes of a slice.
fn copy_bytes(bytes: &[u8]) -> (r: Vec<u8>)
    ensures
        r@ == bytes@,
{
    let mut out: Vec<u8> = Vec::new();
    let mut i: usize = 0;
    while i < bytes.len()
        invariant
            i <= bytes.len(),
            out@ == bytes@.subrange(0, i as int),
        decreases bytes.len() - i,
    {
        out.push(bytes[i]);
        i += 1;
        assert(out@ =~= bytes@.subrange(0, i as int));
    }
    assert(bytes@.subrange(0, bytes.len() as int) =~= bytes@);
    out
}

/// Derives the authority address of `program_id` for `seed`, with the bump
/// seed that proves it: the first from 255 down to zero with which the seed
/// derives an address. Fails with `NoValidDerivation` where the search
/// settles on none, be it that the seed is too long to derive anything or
/// that no bump seed derives an address.
pub fn derive_authority(program_id: &Identity, seed: &[u8]) -> (r: Result<(Identity, u8), USDvError>)
    ensures
        is_derivation(*program_id, seed@, r),
{
    let mut seeds: Vec<Vec<u8>> = Vec::new();
    seeds.push(copy_bytes(seed));
    proof {
        assert(seeds_view(seeds@) =~= seq![seed@]);
    }
    match find_derived_address(&seeds, program_id) {
        Some((authority, bump)) => Ok((authority, bump)),
        None => Err(USDvError::NoValidDerivation),
    }
}

/// Derives an address for `program_id` from `seed` and a bump seed that is
/// known already, without a search.
pub fn rederive_authority(program_id: &Identity, seed: &[u8], bump: u8) -> (r: Result<
    Identity,
    DerivationError,
>)
    ensures
        match r {
            Ok(authority) => rederivation(*program_id, seed@, bump) == Ok::<
                Seq<u8>,
                DerivationError,
            >(authority@),
            Err(e) => rederivation(*program_id, seed@, bump) == Err::<Seq<u8>, DerivationError>(e),
        },
{
    let mut seeds: Vec<Vec<u8>> = Vec::new();
    seeds.push(copy_bytes(seed));
    let mut last: Vec<u8> = Vec::new();
    last.push(bump);
    seeds.push(last);
    proof {
        assert(last@ =~= seq![bump]);
        assert(seeds_view(seeds@) =~= with_bump(seq![seed@], bump));
    }
    pubkey_create_program_address(&seeds, program_id)
}

/// Whether `authority` is the address that `seed` and the stored `bump`
/// derive for `program_id`: the check that lets the program act as that
/// authority without holding a secret.
pub fn verify_authority(program_id: &Identity, seed: &[u8], bump: u8, authority: &Identity) -> (r: bool)
    ensures
        r == rederives(*program_id, seed@, bump, *authority),
{
    match rederive_authority(program_id, seed, bump) {
        Ok(derived) => {
            proof {
                if derived@ == authority@ {
                    identity_of_view(derived, *authority);
                }
            }
            derived == *authority
        },
        Err(_) => false,
    }
}

} // verus!
