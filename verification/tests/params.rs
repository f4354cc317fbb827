use bellman::groth16::create_random_proof;
use bellman::groth16::generate_random_parameters;
use bellman::groth16::verify_proof;
use bellman::groth16::Parameters;
use bellman::Circuit;
use bellman::ConstraintSystem;
use bellman::SynthesisError;
use bls12_381::Bls12;
use bls12_381::Scalar;
use ironfish::errors::CircuitKind;
use ironfish::errors::SaplingError;
use ironfish::sapling::Sapling;

/// Proves knowledge of a and b with a * b = c, c public.
#[derive(Clone, Copy)]
struct MulCircuit {
    a: Option<Scalar>,
    b: Option<Scalar>,
}

impl Circuit<Scalar> for MulCircuit {
    fn synthesize<CS: ConstraintSystem<Scalar>>(self, cs: &mut CS) -> Result<(), SynthesisError> {
        let a = cs.alloc(|| "a", || self.a.ok_or(SynthesisError::AssignmentMissing))?;
        let b = cs.alloc(|| "b", || self.b.ok_or(SynthesisError::AssignmentMissing))?;
        let c = cs.alloc_input(
            || "c",
            || {
                let a = self.a.ok_or(SynthesisError::AssignmentMissing)?;
                let b = self.b.ok_or(SynthesisError::AssignmentMissing)?;
                Ok(a * b)
            },
        )?;
        cs.enforce(|| "a * b = c", |lc| lc + a, |lc| lc + b, |lc| lc + c);
        Ok(())
    }
}

/// Proves knowledge of a with a * a = c, c public.
#[derive(Clone, Copy)]
struct SquareCircuit {
    a: Option<Scalar>,
}

impl Circuit<Scalar> for SquareCircuit {
    fn synthesize<CS: ConstraintSystem<Scalar>>(self, cs: &mut CS) -> Result<(), SynthesisError> {
        let a = cs.alloc(|| "a", || self.a.ok_or(SynthesisError::AssignmentMissing))?;
        let c = cs.alloc_input(
            || "c",
            || {
                let a = self.a.ok_or(SynthesisError::AssignmentMissing)?;
                Ok(a * a)
            },
        )?;
        cs.enforce(|| "a * a = c", |lc| lc + a, |lc| lc + a, |lc| lc + c);
        Ok(())
    }
}

fn mul_params() -> Parameters<Bls12> {
    generate_random_parameters::<Bls12, _, _>(MulCircuit { a: None, b: None }, &mut rand::thread_rng())
        .expect("parameter generation")
}

fn square_params() -> Parameters<Bls12> {
    generate_random_parameters::<Bls12, _, _>(SquareCircuit { a: None }, &mut rand::thread_rng())
        .expect("parameter generation")
}

fn to_bytes(params: &Parameters<Bls12>) -> Vec<u8> {
    let mut bytes = Vec::new();
    params.write(&mut bytes).expect("parameter serialization");
    bytes
}

#[test]
fn load_accepts_valid_blobs() {
    let spend = mul_params();
    let receipt = square_params();
    let create_asset = mul_params();
    let mint_asset = square_params();

    let store = Sapling::load(
        &to_bytes(&spend),
        &to_bytes(&receipt),
        &to_bytes(&create_asset),
        &to_bytes(&mint_asset),
    )
    .expect("all four blobs are valid");

    assert!(store.spend_params.inner == spend);
    assert!(store.receipt_params.inner == receipt);
    assert!(store.create_asset_params.inner == create_asset);
    assert!(store.mint_asset_params.inner == mint_asset);

    assert!(store.params(CircuitKind::Spend).inner == spend);
    assert!(store.params(CircuitKind::Receipt).inner == receipt);
    assert!(store.params(CircuitKind::CreateAsset).inner == create_asset);
    assert!(store.params(CircuitKind::MintAsset).inner == mint_asset);
}

#[test]
fn load_rejects_garbage_first_blob() {
    let valid = to_bytes(&mul_params());
    let garbage = vec![0u8; 100];
    let result = Sapling::load(&garbage, &valid, &valid, &valid);
    assert!(matches!(
        result,
        Err(SaplingError::InvalidParameters(CircuitKind::Spend, _))
    ));
}

#[test]
fn load_rejects_second_blob() {
    let valid = to_bytes(&mul_params());
    let garbage = vec![1u8; 200];
    let result = Sapling::load(&valid, &garbage, &valid, &valid);
    assert!(matches!(
        result,
        Err(SaplingError::InvalidParameters(CircuitKind::Receipt, _))
    ));
}

#[test]
fn load_rejects_third_blob() {
    let valid = to_bytes(&mul_params());
    let empty = Vec::new();
    let result = Sapling::load(&valid, &valid, &empty, &valid);
    assert!(matches!(
        result,
        Err(SaplingError::InvalidParameters(CircuitKind::CreateAsset, _))
    ));
}

#[test]
fn load_rejects_truncated_last_blob() {
    let valid = to_bytes(&mul_params());
    let mut truncated = valid.clone();
    truncated.truncate(valid.len() - 10);
    let result = Sapling::load(&valid, &valid, &valid, &truncated);
    assert!(matches!(
        result,
        Err(SaplingError::InvalidParameters(CircuitKind::MintAsset, _))
    ));
}

#[test]
fn verifying_keys_reject_cross_circuit_proofs() {
    let spend = mul_params();
    let receipt = square_params();
    let create_asset = mul_params();
    let mint_asset = square_params();

    let store = Sapling::load(
        &to_bytes(&spend),
        &to_bytes(&receipt),
        &to_bytes(&create_asset),
        &to_bytes(&mint_asset),
    )
    .expect("all four blobs are valid");

    let assignment = MulCircuit {
        a: Some(Scalar::from(2u64)),
        b: Some(Scalar::from(3u64)),
    };
    let proof = create_random_proof(assignment, &store.spend_params.inner, &mut rand::thread_rng())
        .expect("proof construction");
    let public_input = [Scalar::from(6u64)];

    // The proof verifies against its own circuit's prepared key...
    let spend_key = &store.verifying_key(CircuitKind::Spend).inner;
    assert!(verify_proof(spend_key, &proof, &public_input).is_ok());
    // ...and against no other: not a different circuit's key, and not even a
    // key from an independent setup of the same circuit shape.
    let receipt_key = &store.verifying_key(CircuitKind::Receipt).inner;
    let create_asset_key = &store.verifying_key(CircuitKind::CreateAsset).inner;
    let mint_asset_key = &store.verifying_key(CircuitKind::MintAsset).inner;
    assert!(verify_proof(receipt_key, &proof, &public_input).is_err());
    assert!(verify_proof(create_asset_key, &proof, &public_input).is_err());
    assert!(verify_proof(mint_asset_key, &proof, &public_input).is_err());
}
