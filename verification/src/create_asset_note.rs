//! A create-asset note: the declared asset's metadata together with a fresh
//! blinding scalar, and the derivation of the hiding-and-binding commitment
//! that the create-asset circuit takes as a public input.

use vstd::prelude::*;

use crate::asset_type::AssetInfo;
use crate::asset_type::AssetInfoV;
use crate::bits::bits_of_bytes;
use crate::bits::lemma_bits_of_bytes_injective;
use crate::bits::lemma_seq_neq_at_index;
use crate::bits::push_bytes;
use crate::bits::to_bits_lsb;
use group::Curve;
use rand::Rng;

verus! {

/// The fixed 64-byte public prefix that domain-separates the protocol's
/// commitment preimages: the ASCII bytes of a fixed 64-character hex string.
pub open spec fn spec_gh_first_block() -> Seq<u8> {
    seq![
        48u8, 57u8, 54u8, 98u8, 51u8, 54u8, 97u8, 53u8,
        56u8, 48u8, 52u8, 98u8, 102u8, 97u8, 99u8, 101u8,
        102u8, 49u8, 54u8, 57u8, 49u8, 101u8, 49u8, 55u8,
        51u8, 99u8, 51u8, 54u8, 54u8, 97u8, 52u8, 55u8,
        102u8, 102u8, 53u8, 98u8, 97u8, 56u8, 52u8, 97u8,
        52u8, 52u8, 102u8, 50u8, 54u8, 100u8, 100u8, 100u8,
        55u8, 101u8, 56u8, 100u8, 57u8, 102u8, 55u8, 57u8,
        100u8, 53u8, 98u8, 52u8, 50u8, 100u8, 102u8, 48u8,
    ]
}

/// Whether a 32-byte string is the canonical little-endian encoding of an
/// element of the embedded curve's scalar field, as `jubjub::Fr::from_bytes`
/// accepts it.
pub uninterp spec fn fr_canonical(bytes: Seq<u8>) -> bool;

/// The canonical encoding of the scalar that `jubjub::Fr::from_bytes_wide`
/// yields for a 64-byte seed: the seed read as a 512-bit little-endian
/// integer, reduced modulo the scalar field's order.
pub uninterp spec fn fr_from_wide(wide: Seq<u8>) -> Seq<u8>;

/// The canonical encoding of the commitment scalar: the note-commitment
/// Pedersen hash of the bits, blinded by the randomness scalar times the
/// protocol's commitment-randomness generator, taken to its affine first
/// coordinate.
pub uninterp spec fn pedersen_note_commitment(bits: Seq<bool>, randomness: Seq<u8>) -> Seq<u8>;

/// Relies on `sapling_crypto::constants::GH_FIRST_BLOCK`: the fixed 64-byte
/// prefix shared by the protocol's note-commitment constructions.
#[verifier::external_body]
fn gh_first_block() -> (r: Vec<u8>)
    ensures
        r@ == spec_gh_first_block(),
{
    sapling_crypto::constants::GH_FIRST_BLOCK.to_vec()
}

/// Relies on `rand::thread_rng` and `rand::Rng::fill`: 64 bytes from the
/// thread-local CSPRNG. Nothing is promised of their values.
#[verifier::external_body]
fn random_wide_bytes() -> (r: [u8; 64])
{
    let mut buffer = [0u8; 64];
    rand::thread_rng().fill(&mut buffer[..]);
    buffer
}

/// Relies on `jubjub::Fr::from_bytes_wide`, the bias-resistant wide reduction
/// of a 512-bit little-endian integer modulo the scalar field's order, and on
/// `jubjub::Fr::to_bytes`, the canonical encoding of the result; both are
/// functions of the seed alone.
#[verifier::external_body]
fn reduce_wide(wide: &[u8; 64]) -> (r: [u8; 32])
    ensures
        r@ == fr_from_wide(wide@),
        fr_canonical(r@),
{
    jubjub::Fr::from_bytes_wide(wide).to_bytes()
}

/// Relies on `sapling_crypto::pedersen_hash::pedersen_hash` with the
/// note-commitment personalization, on `jubjub::Fr::from_bytes` (canonical,
/// so it cannot fail here), on jubjub point addition with
/// `sapling_crypto::constants::NOTE_COMMITMENT_RANDOMNESS_GENERATOR` scaled
/// by the blinding scalar, and on `to_affine` / `get_u` / `to_bytes` for the
/// affine first coordinate. All are functions of the two arguments alone.
/// The hash has six generators of 63 chunks of three bits each, 1134 bits of
/// capacity, and runs out of generators past that; its personalization takes
/// six of them, so the input is held to 1128 bits.
#[verifier::external_body]
fn pedersen_commit(bits: &Vec<bool>, randomness: &[u8; 32]) -> (r: [u8; 32])
    requires
        fr_canonical(randomness@),
        bits@.len() <= 1128,
    ensures
        r@ == pedersen_note_commitment(bits@, randomness@),
{
    let rand = jubjub::Fr::from_bytes(randomness).unwrap();
    let hash = sapling_crypto::pedersen_hash::pedersen_hash(
        sapling_crypto::pedersen_hash::Personalization::NoteCommitment,
        bits.iter().copied(),
    );
    let full = hash + (sapling_crypto::constants::NOTE_COMMITMENT_RANDOMNESS_GENERATOR * rand);
    jubjub::ExtendedPoint::from(full).to_affine().get_u().to_bytes()
}

/// The commitment preimage: the fixed public prefix, then the asset name,
/// the owner's address, and the nonce byte.
pub open spec fn spec_commitment_preimage(info: AssetInfoV) -> Seq<u8> {
    spec_gh_first_block() + info.name + info.public_address + seq![info.nonce]
}

/// The canonical encoding of the commitment scalar of a note with the given
/// metadata and blinding-scalar encoding.
pub open spec fn spec_commitment(info: AssetInfoV, randomness: Seq<u8>) -> Seq<u8> {
    pedersen_note_commitment(bits_of_bytes(spec_commitment_preimage(info)), randomness)
}

/// Builds the domain-separated commitment preimage for the given metadata,
/// pinning the exact byte order.
pub fn commitment_preimage(info: &AssetInfo) -> (r: Vec<u8>)
    ensures
        r@ == spec_commitment_preimage(info@),
{
    let mut r = gh_first_block();
    push_bytes(&mut r, &info.name);
    push_bytes(&mut r, &info.public_address);
    r.push(info.nonce);
    proof {
        assert(r@ =~= spec_commitment_preimage(info@));
    }
    r
}

/// A note declaring a new asset: the asset's metadata together with a
/// blinding scalar sampled once at construction and immutable thereafter.
/// The commitment is derived, not stored: it is recomputed on demand from
/// the metadata and the scalar.
pub struct CreateAssetNote {
    pub asset_info: AssetInfo,
    randomness: [u8; 32],
}

impl CreateAssetNote {
    /// The note's metadata.
    pub closed spec fn spec_asset_info(&self) -> AssetInfoV {
        self.asset_info@
    }

    /// The canonical encoding of the note's blinding scalar.
    pub closed spec fn spec_randomness(&self) -> Seq<u8> {
        self.randomness@
    }

    /// The metadata is well formed and the blinding scalar's encoding is
    /// canonical; both constructors establish this.
    pub closed spec fn wf(&self) -> bool {
        self.asset_info.wf() && fr_canonical(self.randomness@)
    }

    /// Builds a note over the given metadata with a blinding scalar sampled
    /// uniformly from the scalar field: a 64-byte random seed is drawn and
    /// reduced into the field, which avoids the modulo bias of reducing a
    /// same-length sample. The scalar is never derived from the metadata.
    pub fn new(asset_info: AssetInfo) -> (r: Self)
        requires
            asset_info.wf(),
        ensures
            r.wf(),
            r.spec_asset_info() == asset_info@,
    {
        let buffer = random_wide_bytes();
        let randomness = reduce_wide(&buffer);
        CreateAssetNote { asset_info, randomness }
    }

    /// Builds a note whose blinding scalar is derived from the given seed by
    /// the same wide reduction that `new` applies to a fresh random seed.
    pub fn from_seed(asset_info: AssetInfo, seed: &[u8; 64]) -> (r: Self)
        requires
            asset_info.wf(),
        ensures
            r.wf(),
            r.spec_asset_info() == asset_info@,
            r.spec_randomness() == fr_from_wide(seed@),
    {
        let randomness = reduce_wide(seed);
        CreateAssetNote { asset_info, randomness }
    }

    /// The canonical encoding of the blinding scalar. The note's holder
    /// retains it to open the commitment at proof time.
    pub fn randomness_bytes(&self) -> (r: [u8; 32])
        ensures
            r@ == self.spec_randomness(),
    {
        self.randomness
    }

    /// The commitment scalar, encoded canonically: the note-commitment hash
    /// of the preimage bits, blinded by the randomness, taken to its affine
    /// first coordinate. Deterministic in the note's fields.
    pub fn commitment_point(&self) -> (r: [u8; 32])
        requires
            self.wf(),
        ensures
            r@ == spec_commitment(self.spec_asset_info(), self.spec_randomness()),
    {
        let preimage = commitment_preimage(&self.asset_info);
        let bits = to_bits_lsb(&preimage);
        pedersen_commit(&bits, &self.randomness)
    }
}

/// The preimage construction is injective on well-formed metadata: the
/// address and nonce have fixed width, so the preimage determines the name,
/// the address and the nonce.
pub proof fn lemma_preimage_injective(a: AssetInfoV, b: AssetInfoV)
    requires
        a.public_address.len() == 32,
        b.public_address.len() == 32,
        a != b,
    ensures
        spec_commitment_preimage(a) != spec_commitment_preimage(b),
{
    let g = spec_gh_first_block();
    let p1 = spec_commitment_preimage(a);
    let p2 = spec_commitment_preimage(b);
    if a.name.len() != b.name.len() {
        assert(p1.len() != p2.len());
    } else {
        if a.name == b.name && a.public_address == b.public_address && a.nonce == b.nonce {
            assert(a =~= b);
            assert(false);
        }
        let gl = g.len() as int;
        let nl = a.name.len() as int;
        if a.name != b.name {
            lemma_seq_neq_at_index(a.name, b.name);
            let i = choose|i: int| 0 <= i < a.name.len() && a.name[i] != b.name[i];
            assert(p1[gl + i] == a.name[i]);
            assert(p2[gl + i] == b.name[i]);
            assert(p1 != p2);
        } else if a.public_address != b.public_address {
            lemma_seq_neq_at_index(a.public_address, b.public_address);
            let i = choose|i: int|
                0 <= i < a.public_address.len() && a.public_address[i] != b.public_address[i];
            assert(p1[gl + nl + i] == a.public_address[i]);
            assert(p2[gl + nl + i] == b.public_address[i]);
            assert(p1 != p2);
        } else {
            assert(p1[gl + nl + 32] == a.nonce);
            assert(p2[gl + nl + 32] == b.nonce);
            assert(p1 != p2);
        }
    }
}

/// Distinct metadata (differing in name, address, or nonce) hand the
/// note-commitment hash distinct bit strings under any fixed randomness.
/// That the hash then separates the commitments themselves rests on its
/// collision resistance, which is not stated here.
pub proof fn lemma_distinct_metadata_distinct_hash_input(a: AssetInfoV, b: AssetInfoV)
    requires
        a.public_address.len() == 32,
        b.public_address.len() == 32,
        a != b,
    ensures
        bits_of_bytes(spec_commitment_preimage(a)) != bits_of_bytes(spec_commitment_preimage(b)),
{
    lemma_preimage_injective(a, b);
    lemma_bits_of_bytes_injective(spec_commitment_preimage(a), spec_commitment_preimage(b));
}

/// The commitment is a function of the note's metadata and blinding scalar
/// alone: notes that agree on both commit to the identical value, so
/// recomputing a note's commitment reproduces it bit for bit.
pub proof fn lemma_commitment_reproducible(a: &CreateAssetNote, b: &CreateAssetNote)
    requires
        a.spec_asset_info() == b.spec_asset_info(),
        a.spec_randomness() == b.spec_randomness(),
    ensures
        spec_commitment(a.spec_asset_info(), a.spec_randomness())
            == spec_commitment(b.spec_asset_info(), b.spec_randomness()),
{
}

} // verus!
