//! Identifiers for the assets that are minted for new auctions.
//!
//! The identifier of an asset is drawn from a secret seed of the host and the
//! name of the auction: the seed is masked with the name, the result is fed
//! to SHAKE128, and the first four bytes that come out are read as a number.

use vstd::prelude::*;
use sha3::digest::ExtendableOutput;

verus! {

/// The first four bytes that SHAKE128 gives out for a byte string.
pub uninterp spec fn shake128_first4(data: Seq<u8>) -> Seq<u8>;

/// Calls `sha3::Shake128::digest_xof` with a buffer of four bytes. What fills
/// the buffer is a function of the input alone; nothing else is claimed.
#[verifier::external_body]
fn shake128_4(data: &[u8]) -> (out: [u8; 4])
    ensures
        out@ == shake128_first4(data@),
{
    let mut out = [0u8; 4];
    sha3::Shake128::digest_xof(data, &mut out);
    out
}

/// The seed masked with the name: byte for byte, the exclusive or of the two.
pub open spec fn masked(seed: Seq<u8>, name: Seq<u8>) -> Seq<u8> {
    Seq::new(seed.len(), |i: int| seed[i] ^ name[i])
}

/// Masks the seed with the name. The seed is no longer than the name.
pub fn mask_seed(seed: &[u8], name: &[u8; 48]) -> (out: Vec<u8>)
    requires
        seed@.len() <= 48,
    ensures
        out@ == masked(seed@, name@),
{
    let mut out: Vec<u8> = Vec::new();
    let mut i: usize = 0;
    while i < seed.len()
        invariant
            i <= seed@.len(),
            seed@.len() <= 48,
            out@.len() == i,
            forall|k: int| 0 <= k < i ==> out@[k] == seed@[k] ^ name@[k],
        decreases seed@.len() - i,
    {
        out.push(seed[i] ^ name[i]);
        i += 1;
    }
    assert(out@ =~= masked(seed@, name@));
    out
}

/// The number that four bytes stand for, least significant byte first.
pub open spec fn le_u32(bytes: Seq<u8>) -> int {
    bytes[0] + bytes[1] * 0x100 + bytes[2] * 0x1_0000 + bytes[3] * 0x100_0000
}

/// Reads four bytes as a number, least significant byte first.
pub fn read_le_u32(bytes: &[u8; 4]) -> (n: u32)
    ensures
        n == le_u32(bytes@),
{
    let b0: u32 = bytes[0] as u32;
    let b1: u32 = bytes[1] as u32;
    let b2: u32 = bytes[2] as u32;
    let b3: u32 = bytes[3] as u32;
    b0 + b1 * 0x100 + b2 * 0x1_0000 + b3 * 0x100_0000
}

/// The identifier that a digest of four bytes stands for.
pub open spec fn asset_id_of(seed: Seq<u8>, name: Seq<u8>) -> int {
    le_u32(shake128_first4(masked(seed, name)))
}

/// The identifier of the asset for the auction `name`, drawn from `seed`.
pub fn derive_asset_id(seed: &[u8], name: &[u8; 48]) -> (id: u32)
    requires
        seed@.len() <= 48,
    ensures
        id == asset_id_of(seed@, name@),
{
    let bytes = mask_seed(seed, name);
    let digest = shake128_4(bytes.as_slice());
    read_le_u32(&digest)
}

} // verus!
