//! Cryptographic core of a shielded-transaction protocol: loading the
//! zk-SNARK proving parameters for the protocol's four circuits, and
//! computing hiding-and-binding commitments to newly declared asset types.

pub mod asset_type;
pub mod bits;
pub mod create_asset_note;
pub mod errors;
pub mod sapling;

pub use asset_type::AssetInfo;
pub use create_asset_note::CreateAssetNote;
pub use errors::CircuitKind;
pub use errors::SaplingError;
pub use sapling::Sapling;
