//! Account identities: thirty-two bytes, compared byte for byte, with the
//! text form and the derived addresses that the chain's own library defines.

use vstd::prelude::*;

verus! {

/// The identity of an account, a mint, a program or a signer.
#[derive(Debug, Clone, Copy, Eq)]
pub struct Identity {
    pub bytes: [u8; 32],
}

impl View for Identity {
    type V = Seq<u8>;

    open spec fn view(&self) -> Seq<u8> {
        self.bytes@
    }
}

impl PartialEq for Identity {
    fn eq(&self, other: &Self) -> (r: bool) {
        let mut i: usize = 0;
        while i < 32
            invariant
                i <= 32,
                forall|j: int| 0 <= j < i ==> self.bytes[j] == other.bytes[j],
            decreases 32 - i,
        {
            if self.bytes[i] != other.bytes[i] {
                return false;
            }
            i += 1;
        }
        assert(self.bytes =~= other.bytes);
        true
    }
}

impl vstd::std_specs::cmp::PartialEqSpecImpl for Identity {
    open spec fn obeys_eq_spec() -> bool {
        true
    }

    open spec fn eq_spec(&self, other: &Self) -> bool {
        *self == *other
    }
}

/// Two identities of the same bytes are the same identity.
pub proof fn identity_of_view(a: Identity, b: Identity)
    requires
        a@ == b@,
    ensures
        a == b,
{
    assert forall|i: int| 0 <= i < 32 implies a.bytes[i] == b.bytes[i] by {
        assert(a.bytes[i] == a@[i]);
        assert(b.bytes[i] == b@[i]);
    }
    assert(a.bytes =~= b.bytes);
}

/// Why a text is not the base58 form of an identity.
#[derive(Debug, Clone, Copy, PartialEq, Eq, Structural)]
pub enum ParseIdentityError {
    /// The text does not stand for exactly thirty-two bytes.
    WrongSize,
    /// The text holds a character outside the base58 alphabet.
    Invalid,
}

/// Why a list of seeds derives no address.
#[derive(Debug, Clone, Copy, PartialEq, Eq, Structural)]
pub enum DerivationError {
    /// There are too many seeds, or one of them is too long.
    MaxSeedLengthExceeded,
    /// The seeds derive a point of the curve, which a private key could own.
    InvalidSeeds,
    /// The owner may not be used for a derived address.
    IllegalOwner,
}

/// What `Pubkey::from_str` of the chain's library makes of a text: the bytes
/// that the text stands for in base58, or the reason why it stands for none.
pub uninterp spec fn spec_identity_from_str(text: Seq<char>) -> Result<Seq<u8>, ParseIdentityError>;

/// What `Pubkey::create_program_address` makes of a list of seeds and a
/// program's identity: the address that they derive, or the reason why they
/// derive none.
pub uninterp spec fn spec_create_program_address(
    seeds: Seq<Seq<u8>>,
    program_id: Seq<u8>,
) -> Result<Seq<u8>, DerivationError>;

/// A list of seeds followed by a bump seed, as one more seed of one byte.
pub open spec fn with_bump(seeds: Seq<Seq<u8>>, bump: u8) -> Seq<Seq<u8>> {
    seeds.push(seq![bump])
}

/// The bytes of each seed of a list.
pub open spec fn seeds_view(seeds: Seq<Vec<u8>>) -> Seq<Seq<u8>> {
    Seq::new(seeds.len(), |i: int| seeds[i]@)
}

/// Calls `Pubkey::from_str`. The contract names what that function returns
/// and claims nothing more of it than that thirty-two bytes come out.
#[verifier::external_body]
fn pubkey_from_str(text: &str) -> (r: Result<Identity, ParseIdentityError>)
    ensures
        match r {
            Ok(id) => spec_identity_from_str(text@) == Ok::<Seq<u8>, ParseIdentityError>(id@),
            Err(e) => spec_identity_from_str(text@) == Err::<Seq<u8>, ParseIdentityError>(e),
        },
{
    match <solana_sdk::pubkey::Pubkey as std::str::FromStr>::from_str(text) {
        Ok(key) => Ok(Identity { bytes: key.to_bytes() }),
        Err(solana_sdk::pubkey::ParsePubkeyError::WrongSize) => Err(ParseIdentityError::WrongSize),
        Err(solana_sdk::pubkey::ParsePubkeyError::Invalid) => Err(ParseIdentityError::Invalid),
    }
}

/// Calls `Pubkey::create_program_address`. The contract names what that
/// function returns. It is claimed of the function as it is built for every
/// target but the chain's own: there a system call of the runtime stands in
/// its place, whose source the crate does not hold.
#[verifier::external_body]
pub(crate) fn pubkey_create_program_address(seeds: &Vec<Vec<u8>>, program_id: &Identity) -> (r: Result<
    Identity,
    DerivationError,
>)
    ensures
        match r {
            Ok(id) => spec_create_program_address(seeds_view(seeds@), program_id@) == Ok::<
                Seq<u8>,
                DerivationError,
            >(id@),
            Err(e) => spec_create_program_address(seeds_view(seeds@), program_id@) == Err::<
                Seq<u8>,
                DerivationError,
            >(e),
        },
{
    let slices: Vec<&[u8]> = seeds.iter().map(|seed| seed.as_slice()).collect();
    let program = solana_sdk::pubkey::Pubkey::new_from_array(program_id.bytes);
    match solana_sdk::pubkey::Pubkey::create_program_address(&slices, &program) {
        Ok(key) => Ok(Identity { bytes: key.to_bytes() }),
        Err(solana_sdk::pubkey::PubkeyError::MaxSeedLengthExceeded) => Err(
            DerivationError::MaxSeedLengthExceeded,
        ),
        Err(solana_sdk::pubkey::PubkeyError::InvalidSeeds) => Err(DerivationError::InvalidSeeds),
        Err(solana_sdk::pubkey::PubkeyError::IllegalOwner) => Err(DerivationError::IllegalOwner),
    }
}

/// Calls `system_program::id`. The contract claims that the system program's
/// identity is thirty-two zero bytes, which its base58 form of thirty-two
/// ones stands for.
#[verifier::external_body]
fn system_program_id() -> (r: Identity)
    ensures
        forall|i: int| 0 <= i < 32 ==> r.bytes[i] == 0u8,
{
    Identity { bytes: solana_sdk::system_program::id().to_bytes() }
}

impl Identity {
    /// The identity made of the given bytes.
    pub fn new_from_array(bytes: [u8; 32]) -> (r: Identity)
        ensures
            r.bytes == bytes,
    {
        Identity { bytes }
    }

    /// The bytes of the identity.
    pub fn to_bytes(&self) -> (r: [u8; 32])
        ensures
            r == self.bytes,
    {
        self.bytes
    }

    /// Whether every byte is zero, as of the system program's identity.
    pub open spec fn is_zero(&self) -> bool {
        forall|i: int| 0 <= i < 32 ==> self.bytes[i] == 0u8
    }

    /// The identity that a base58 text stands for.
    pub fn from_str(text: &str) -> (r: Result<Identity, ParseIdentityError>)
        ensures
            match r {
                Ok(id) => spec_identity_from_str(text@) == Ok::<Seq<u8>, ParseIdentityError>(id@),
                Err(e) => spec_identity_from_str(text@) == Err::<Seq<u8>, ParseIdentityError>(e),
            },
    {
        pubkey_from_str(text)
    }

    /// The identity of the system program.
    pub fn system_program() -> (r: Identity)
        ensures
            r.is_zero(),
    {
        system_program_id()
    }
}

} // verus!
