//! The program state as it is stored: a record of fixed size.
//!
//! The record holds the initialization flag in one byte, the four identities
//! in thirty-two bytes each, the bump seed in one byte and the two counters
//! in eight bytes each, least significant byte first. In an account the
//! record follows a discriminator of eight bytes.

use vstd::prelude::*;
use vstd::bytes::{
    lemma_auto_spec_u64_to_from_le_bytes, spec_u64_from_le_bytes, spec_u64_to_le_bytes,
    u64_from_le_bytes, u64_to_le_bytes,
};
use crate::errors::USDvError;
use crate::identity::{identity_of_view, Identity};
use crate::state::ProgramState;

verus! {

/// Length of the stored record, in bytes.
pub const RECORD_LEN: usize = 146;

/// Length of the discriminator that precedes the record in an account.
pub const DISCRIMINATOR_LEN: usize = 8;

/// The byte that stands for a flag.
pub open spec fn flag_byte(flag: bool) -> u8 {
    if flag {
        1
    } else {
        0
    }
}

/// The record of a state.
pub open spec fn spec_pack(state: ProgramState) -> Seq<u8> {
    seq![flag_byte(state.is_initialized)] + state.admin@ + state.usdc_mint@ + state.usdv_mint@
        + state.vault_authority@ + seq![state.vault_bump] + spec_u64_to_le_bytes(
        state.total_usdv_supply,
    ) + spec_u64_to_le_bytes(state.total_usdc_deposits)
}

/// Whether some state has these bytes as its record: they are as many as a
/// record holds, and the first of them is a flag.
pub open spec fn is_record(bytes: Seq<u8>) -> bool {
    bytes.len() == RECORD_LEN && bytes[0] <= 1
}

/// The record of a state has the length of a record, and its parts lie at
/// their places.
pub proof fn record_layout(state: ProgramState)
    ensures
        is_record(spec_pack(state)),
        spec_pack(state)[0] == flag_byte(state.is_initialized),
        spec_pack(state).subrange(1, 33) == state.admin@,
        spec_pack(state).subrange(33, 65) == state.usdc_mint@,
        spec_pack(state).subrange(65, 97) == state.usdv_mint@,
        spec_pack(state).subrange(97, 129) == state.vault_authority@,
        spec_pack(state)[129] == state.vault_bump,
        spec_pack(state).subrange(130, 138) == spec_u64_to_le_bytes(state.total_usdv_supply),
        spec_pack(state).subrange(138, 146) == spec_u64_to_le_bytes(state.total_usdc_deposits),
{
    lemma_auto_spec_u64_to_from_le_bytes();
    let record = spec_pack(state);
    assert(state.admin@.len() == 32);
    assert(state.usdc_mint@.len() == 32);
    assert(state.usdv_mint@.len() == 32);
    assert(state.vault_authority@.len() == 32);
    assert(record.subrange(1, 33) =~= state.admin@);
    assert(record.subrange(33, 65) =~= state.usdc_mint@);
    assert(record.subrange(65, 97) =~= state.usdv_mint@);
    assert(record.subrange(97, 129) =~= state.vault_authority@);
    assert(record.subrange(130, 138) =~= spec_u64_to_le_bytes(state.total_usdv_supply));
    assert(record.subrange(138, 146) =~= spec_u64_to_le_bytes(state.total_usdc_deposits));
}

/// Two states of the same record are the same state.
pub proof fn record_determines_state(a: ProgramState, b: ProgramState)
    requires
        spec_pack(a) == spec_pack(b),
    ensures
        a == b,
{
    record_layout(a);
    record_layout(b);
    lemma_auto_spec_u64_to_from_le_bytes();
    identity_of_view(a.admin, b.admin);
    identity_of_view(a.usdc_mint, b.usdc_mint);
    identity_of_view(a.usdv_mint, b.usdv_mint);
    identity_of_view(a.vault_authority, b.vault_authority);
    assert(spec_u64_from_le_bytes(spec_u64_to_le_bytes(a.total_usdv_supply))
        == spec_u64_from_le_bytes(spec_u64_to_le_bytes(b.total_usdv_supply)));
    assert(spec_u64_from_le_bytes(spec_u64_to_le_bytes(a.total_usdc_deposits))
        == spec_u64_from_le_bytes(spec_u64_to_le_bytes(b.total_usdc_deposits)));
}

/// What is read from a record is the state that was written: whatever
/// `unpack` makes of the record of a state is that state.
pub proof fn unpack_inverts_pack(state: ProgramState, read: Result<ProgramState, USDvError>)
    requires
        is_unpacked(spec_pack(state), read),
    ensures
        read == Ok::<ProgramState, USDvError>(state),
{
    record_layout(state);
    record_determines_state(state, read->Ok_0);
}

/// Whether `read` is what `unpack` makes of `bytes`: the state whose record
/// they are, or `SerializationError` where they are no state's record.
pub open spec fn is_unpacked(bytes: Seq<u8>, read: Result<ProgramState, USDvError>) -> bool {
    match read {
        Ok(state) => is_record(bytes) && spec_pack(state) == bytes,
        Err(e) => !is_record(bytes) && e == USDvError::SerializationError,
    }
}

/// Appends the bytes of a slice to a vector.
fn append_bytes(out: &mut Vec<u8>, bytes: &[u8])
    ensures
        final(out)@ == old(out)@ + bytes@,
{
    let mut i: usize = 0;
    while i < bytes.len()
        invariant
            i <= bytes.len(),
            out@ == old(out)@ + bytes@.subrange(0, i as int),
        decreases bytes.len() - i,
    {
        out.push(bytes[i]);
        i += 1;
        assert(out@ =~= old(out)@ + bytes@.subrange(0, i as int));
    }
    assert(bytes@.subrange(0, bytes.len() as int) =~= bytes@);
}

/// The thirty-two bytes of `bytes` from `start` on, as an identity.
fn read_identity(bytes: &[u8], start: usize) -> (r: Identity)
    requires
        start + 32 <= bytes.len(),
    ensures
        r@ == bytes@.subrange(start as int, start + 32),
{
    let mut out: [u8; 32] = [0u8; 32];
    let mut i: usize = 0;
    while i < 32
        invariant
            i <= 32,
            start + 32 <= bytes.len(),
            forall|j: int| 0 <= j < i ==> out[j] == bytes@[start + j],
        decreases 32 - i,
    {
        out[i] = bytes[start + i];
        i += 1;
    }
    let r = Identity { bytes: out };
    assert(r@ =~= bytes@.subrange(start as int, start + 32));
    r
}

/// The eight bytes of `bytes` from `start` on, as a counter.
fn read_counter(bytes: &[u8], start: usize) -> (r: u64)
    requires
        start + 8 <= bytes.len(),
    ensures
        r == spec_u64_from_le_bytes(bytes@.subrange(start as int, start + 8)),
{
    let mut part: Vec<u8> = Vec::new();
    let mut i: usize = 0;
    while i < 8
        invariant
            i <= 8,
            start + 8 <= bytes.len(),
            part@ == bytes@.subrange(start as int, start + i),
        decreases 8 - i,
    {
        part.push(bytes[start + i]);
        i += 1;
        assert(part@ =~= bytes@.subrange(start as int, start + i));
    }
    u64_from_le_bytes(part.as_slice())
}

/// Writes the record of a state.
pub fn pack(state: &ProgramState) -> (r: Vec<u8>)
    ensures
        r@ == spec_pack(*state),
        r@.len() == RECORD_LEN,
{
    let mut out: Vec<u8> = Vec::new();
    out.push(if state.is_initialized { 1u8 } else { 0u8 });
    append_bytes(&mut out, &state.admin.bytes);
    append_bytes(&mut out, &state.usdc_mint.bytes);
    append_bytes(&mut out, &state.usdv_mint.bytes);
    append_bytes(&mut out, &state.vault_authority.bytes);
    out.push(state.vault_bump);
    let supply = u64_to_le_bytes(state.total_usdv_supply);
    append_bytes(&mut out, supply.as_slice());
    let deposits = u64_to_le_bytes(state.total_usdc_deposits);
    append_bytes(&mut out, deposits.as_slice());
    proof {
        assert(out@ =~= spec_pack(*state));
        record_layout(*state);
    }
    out
}

/// Reads a state from its record. Bytes that are no state's record, being
/// too few, too many, or led by a byte that is no flag, are refused with
/// `SerializationError`.
pub fn unpack(bytes: &[u8]) -> (r: Result<ProgramState, USDvError>)
    ensures
        is_unpacked(bytes@, r),
{
    if bytes.len() != RECORD_LEN {
        return Err(USDvError::SerializationError);
    }
    if bytes[0] > 1 {
        return Err(USDvError::SerializationError);
    }
    let state = ProgramState {
        is_initialized: bytes[0] == 1,
        admin: read_identity(bytes, 1),
        usdc_mint: read_identity(bytes, 33),
        usdv_mint: read_identity(bytes, 65),
        vault_authority: read_identity(bytes, 97),
        vault_bump: bytes[129],
        total_usdv_supply: read_counter(bytes, 130),
        total_usdc_deposits: read_counter(bytes, 138),
    };
    proof {
        lemma_auto_spec_u64_to_from_le_bytes();
        assert(bytes@.subrange(130, 138).len() == 8);
        assert(bytes@.subrange(138, 146).len() == 8);
        assert(spec_u64_to_le_bytes(state.total_usdv_supply) == bytes@.subrange(130, 138));
        assert(spec_u64_to_le_bytes(state.total_usdc_deposits) == bytes@.subrange(138, 146));
        assert(spec_pack(state) =~= bytes@);
    }
    Ok(state)
}

/// Whether `read` is what `decode_account` makes of an account's data: what
/// `unpack` makes of the data after the discriminator, or
/// `SerializationError` where the data is shorter than a discriminator.
pub open spec fn is_decoded(data: Seq<u8>, read: Result<ProgramState, USDvError>) -> bool {
    if data.len() < DISCRIMINATOR_LEN {
        read == Err::<ProgramState, USDvError>(USDvError::SerializationError)
    } else {
        is_unpacked(data.subrange(DISCRIMINATOR_LEN as int, data.len() as int), read)
    }
}

/// Reads the program state from the data of its account: skips the
/// discriminator and reads the record that follows it.
pub fn decode_account(data: &[u8]) -> (r: Result<ProgramState, USDvError>)
    ensures
        is_decoded(data@, r),
{
    if data.len() < DISCRIMINATOR_LEN {
        return Err(USDvError::SerializationError);
    }
    let mut record: Vec<u8> = Vec::new();
    let mut i: usize = DISCRIMINATOR_LEN;
    while i < data.len()
        invariant
            DISCRIMINATOR_LEN <= i <= data.len(),
            record@ == data@.subrange(DISCRIMINATOR_LEN as int, i as int),
        decreases data.len() - i,
    {
        record.push(data[i]);
        i += 1;
        assert(record@ =~= data@.subrange(DISCRIMINATOR_LEN as int, i as int));
    }
    unpack(record.as_slice())
}

} // verus!
