//! The parameter store: the zk-SNARK parameter sets for the protocol's four
//! circuits, deserialized once at startup from their binary blobs, with a
//! prepared verifying key derived from each; immutable thereafter.

use vstd::prelude::*;

use crate::errors::CircuitKind;
use crate::errors::SaplingError;

verus! {

/// One circuit's proving parameters: `bellman::groth16::Parameters` over
/// BLS12-381, held opaquely because the parameter type's generic bound is a
/// trait of an outside crate, which the verifier cannot take in a
/// declaration. The field is public so that the proof-construction layer
/// outside the library can reach the parameters themselves.
#[verifier::external_body]
pub struct CircuitParams {
    pub inner: bellman::groth16::Parameters<bls12_381::Bls12>,
}

/// A prepared verifying key: `bellman::groth16::PreparedVerifyingKey` over
/// BLS12-381, held opaquely for the same reason, with the field public for
/// the proof-verification layer outside the library.
#[verifier::external_body]
pub struct PreparedKey {
    pub inner: bellman::groth16::PreparedVerifyingKey<bls12_381::Bls12>,
}

/// Whether the bytes deserialize as a valid parameter set: not truncated,
/// every point on curve, in the right subgroup and not the identity, as
/// `bellman::groth16::Parameters::read` checks them.
pub uninterp spec fn groth16_params_valid(bytes: Seq<u8>) -> bool;

/// Relies on `bellman::groth16::Parameters::read` with point checking on:
/// success is a function of the bytes alone, and malformed, truncated,
/// off-curve, out-of-subgroup or identity point encodings are rejected.
#[verifier::external_body]
fn read_params(bytes: &Vec<u8>) -> (r: Result<CircuitParams, std::io::Error>)
    ensures
        r is Ok <==> groth16_params_valid(bytes@),
{
    match bellman::groth16::Parameters::read(bytes.as_slice(), true) {
        Ok(inner) => Ok(CircuitParams { inner }),
        Err(e) => Err(e),
    }
}

/// Relies on `bellman::groth16::prepare_verifying_key`: a pure
/// precomputation over the verification key embedded in the parameters,
/// holding no secret material.
#[verifier::external_body]
fn prepare_params_verifying_key(params: &CircuitParams) -> PreparedKey {
    PreparedKey { inner: bellman::groth16::prepare_verifying_key(&params.inner.vk) }
}

/// The four zk-SNARK parameter sets, one per circuit kind, each beside the
/// prepared verifying key derived from it; built once by `load`, then shared
/// read-only. The ghost `*_source` fields record the bytes each parameter
/// set was decoded from.
pub struct Sapling {
    pub spend_params: CircuitParams,
    pub receipt_params: CircuitParams,
    pub create_asset_params: CircuitParams,
    pub mint_asset_params: CircuitParams,
    pub spend_verifying_key: PreparedKey,
    pub receipt_verifying_key: PreparedKey,
    pub create_asset_verifying_key: PreparedKey,
    pub mint_asset_verifying_key: PreparedKey,
    pub spend_source: Ghost<Seq<u8>>,
    pub receipt_source: Ghost<Seq<u8>>,
    pub create_asset_source: Ghost<Seq<u8>>,
    pub mint_asset_source: Ghost<Seq<u8>>,
}

impl Sapling {
    /// Every slot of the store was decoded from a valid parameter blob.
    pub open spec fn wf(&self) -> bool {
        &&& groth16_params_valid(self.spend_source@)
        &&& groth16_params_valid(self.receipt_source@)
        &&& groth16_params_valid(self.create_asset_source@)
        &&& groth16_params_valid(self.mint_asset_source@)
    }

    /// The proving parameters for the given circuit kind.
    pub fn params(&self, kind: CircuitKind) -> (r: &CircuitParams)
        ensures
            r == match kind {
                CircuitKind::Spend => &self.spend_params,
                CircuitKind::Receipt => &self.receipt_params,
                CircuitKind::CreateAsset => &self.create_asset_params,
                CircuitKind::MintAsset => &self.mint_asset_params,
            },
    {
        match kind {
            CircuitKind::Spend => &self.spend_params,
            CircuitKind::Receipt => &self.receipt_params,
            CircuitKind::CreateAsset => &self.create_asset_params,
            CircuitKind::MintAsset => &self.mint_asset_params,
        }
    }

    /// The prepared verifying key for the given circuit kind.
    pub fn verifying_key(&self, kind: CircuitKind) -> (r: &PreparedKey)
        ensures
            r == match kind {
                CircuitKind::Spend => &self.spend_verifying_key,
                CircuitKind::Receipt => &self.receipt_verifying_key,
                CircuitKind::CreateAsset => &self.create_asset_verifying_key,
                CircuitKind::MintAsset => &self.mint_asset_verifying_key,
            },
    {
        match kind {
            CircuitKind::Spend => &self.spend_verifying_key,
            CircuitKind::Receipt => &self.receipt_verifying_key,
            CircuitKind::CreateAsset => &self.create_asset_verifying_key,
            CircuitKind::MintAsset => &self.mint_asset_verifying_key,
        }
    }

    /// Deserializes the four parameter blobs, one per circuit kind, and
    /// derives each circuit's prepared verifying key from its own
    /// parameters. Succeeds if and only if all four blobs are valid; a blob
    /// that fails validation is fatal, and the error names the first
    /// circuit, in the order spend, receipt, create-asset, mint-asset,
    /// whose blob was rejected.
    pub fn load(
        spend_bytes: &Vec<u8>,
        receipt_bytes: &Vec<u8>,
        create_asset_bytes: &Vec<u8>,
        mint_asset_bytes: &Vec<u8>,
    ) -> (r: Result<Sapling, SaplingError>)
        ensures
            r is Ok <==> {
                &&& groth16_params_valid(spend_bytes@)
                &&& groth16_params_valid(receipt_bytes@)
                &&& groth16_params_valid(create_asset_bytes@)
                &&& groth16_params_valid(mint_asset_bytes@)
            },
            r matches Ok(s) ==> {
                &&& s.wf()
                &&& s.spend_source@ == spend_bytes@
                &&& s.receipt_source@ == receipt_bytes@
                &&& s.create_asset_source@ == create_asset_bytes@
                &&& s.mint_asset_source@ == mint_asset_bytes@
            },
            r matches Err(e) ==> match e {
                SaplingError::InvalidParameters(kind, _) => {
                    &&& (kind == CircuitKind::Spend <==> !groth16_params_valid(spend_bytes@))
                    &&& (kind == CircuitKind::Receipt <==> {
                        &&& groth16_params_valid(spend_bytes@)
                        &&& !groth16_params_valid(receipt_bytes@)
                    })
                    &&& (kind == CircuitKind::CreateAsset <==> {
                        &&& groth16_params_valid(spend_bytes@)
                        &&& groth16_params_valid(receipt_bytes@)
                        &&& !groth16_params_valid(create_asset_bytes@)
                    })
                    &&& (kind == CircuitKind::MintAsset <==> {
                        &&& groth16_params_valid(spend_bytes@)
                        &&& groth16_params_valid(receipt_bytes@)
                        &&& groth16_params_valid(create_asset_bytes@)
                        &&& !groth16_params_valid(mint_asset_bytes@)
                    })
                },
            },
    {
        let spend_params = match read_params(spend_bytes) {
            Ok(p) => p,
            Err(e) => {
                return Err(SaplingError::InvalidParameters(CircuitKind::Spend, e));
            },
        };
        let receipt_params = match read_params(receipt_bytes) {
            Ok(p) => p,
            Err(e) => {
                return Err(SaplingError::InvalidParameters(CircuitKind::Receipt, e));
            },
        };
        let create_asset_params = match read_params(create_asset_bytes) {
            Ok(p) => p,
            Err(e) => {
                return Err(SaplingError::InvalidParameters(CircuitKind::CreateAsset, e));
            },
        };
        let mint_asset_params = match read_params(mint_asset_bytes) {
            Ok(p) => p,
            Err(e) => {
                return Err(SaplingError::InvalidParameters(CircuitKind::MintAsset, e));
            },
        };

        let spend_verifying_key = prepare_params_verifying_key(&spend_params);
        let receipt_verifying_key = prepare_params_verifying_key(&receipt_params);
        let create_asset_verifying_key = prepare_params_verifying_key(&create_asset_params);
        let mint_asset_verifying_key = prepare_params_verifying_key(&mint_asset_params);

        Ok(
            Sapling {
                spend_params,
                receipt_params,
                create_asset_params,
                mint_asset_params,
                spend_verifying_key,
                receipt_verifying_key,
                create_asset_verifying_key,
                mint_asset_verifying_key,
                spend_source: Ghost(spend_bytes@),
                receipt_source: Ghost(receipt_bytes@),
                create_asset_source: Ghost(create_asset_bytes@),
                mint_asset_source: Ghost(mint_asset_bytes@),
            },
        )
    }
}

} // verus!
