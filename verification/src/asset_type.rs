//! Metadata of a declared on-chain asset type, as the asset-registry layer
//! hands it to the commitment computation: a name, the owner's public
//! address, and a one-byte nonce.

use vstd::prelude::*;

verus! {

/// The mathematical value of an [`AssetInfo`].
#[verifier::ext_equal]
pub ghost struct AssetInfoV {
    pub name: Seq<u8>,
    pub public_address: Seq<u8>,
    pub nonce: u8,
}

/// The longest asset name the commitment can take: the note-commitment hash
/// has capacity for 1134 bits, its personalization takes six, and the fixed
/// 64-byte prefix, the 32-byte address and the nonce byte take 776 more,
/// which leaves 44 name bytes.
pub const MAX_ASSET_NAME_LEN: usize = 44;

/// Metadata of a declared asset: its name, the owner's public address
/// (32 bytes), and a nonce byte.
pub struct AssetInfo {
    pub name: Vec<u8>,
    pub public_address: Vec<u8>,
    pub nonce: u8,
}

impl View for AssetInfo {
    type V = AssetInfoV;

    open spec fn view(&self) -> AssetInfoV {
        AssetInfoV {
            name: self.name@,
            public_address: self.public_address@,
            nonce: self.nonce,
        }
    }
}

impl AssetInfo {
    /// A well-formed asset description carries a 32-byte owner address and a
    /// name the commitment hash has capacity for. Validating caller-supplied
    /// metadata against these limits is the calling layer's responsibility.
    pub open spec fn wf(&self) -> bool {
        &&& self.public_address@.len() == 32
        &&& self.name@.len() <= MAX_ASSET_NAME_LEN
    }

    pub fn new(name: Vec<u8>, public_address: Vec<u8>, nonce: u8) -> (r: Self)
        requires
            public_address@.len() == 32,
            name@.len() <= MAX_ASSET_NAME_LEN,
        ensures
            r.wf(),
            r@ == (AssetInfoV { name: name@, public_address: public_address@, nonce }),
    {
        AssetInfo { name, public_address, nonce }
    }

    pub fn name(&self) -> (r: &Vec<u8>)
        ensures
            r@ == self@.name,
    {
        &self.name
    }

    pub fn public_address_bytes(&self) -> (r: &Vec<u8>)
        ensures
            r@ == self@.public_address,
    {
        &self.public_address
    }

    pub fn nonce(&self) -> (r: u8)
        ensures
            r == self@.nonce,
    {
        self.nonce
    }
}

} // verus!
