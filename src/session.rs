//! The decisions of one prove-and-verify session: which instance and public
//! input vector go to the proving backend, and what its answers mean. The
//! backend calls themselves happen outside the library.
use crate::circuit::{CompareCircuit, SumCircuit, SynthesisError, prefix_extend, sum_extend};
use crate::field::{Elem, encode_spec, encode_str};
use crate::r1cs::{ConstraintSystem, empty_model, model_wf};
use vstd::prelude::*;
use vstd::string::StringSliceAdditionalSpecFns;

verus! {

/// Why a session ended without an accepted proof.
#[derive(Clone, Copy, Debug, PartialEq, Eq, Structural)]
pub enum SessionError {
    /// The backend's setup step failed.
    SetupFailed,
    /// The backend's prove step failed.
    ProveFailed,
    /// The backend's verify step failed.
    VerifyFailed,
    /// The backend answered that the proof does not verify.
    Rejected,
}

/// A sum instance with the public input vector that goes with it.
#[derive(Clone, Debug)]
pub struct SumSession {
    pub circuit: SumCircuit,
    pub public_inputs: Vec<Elem>,
}

/// A prefix instance with the public input vector that goes with it.
#[derive(Clone, Debug)]
pub struct PrefixSession {
    pub circuit: CompareCircuit,
    pub public_inputs: Vec<Elem>,
}

/// The instance for `a + b == c` and its public inputs `[c]`.
pub fn sum_session(a: u64, b: u64, c: u64) -> (r: SumSession)
    ensures
        r.circuit.a == Some(Elem { val: a }),
        r.circuit.b == Some(Elem { val: b }),
        r.circuit.c == Some(Elem { val: c }),
        r.public_inputs@ == seq![Elem { val: c }],
{
    let public_inputs = vec![Elem::from_u64(c)];
    SumSession { circuit: SumCircuit::new(a, b, c), public_inputs }
}

/// The instance stating that the bytes of `small` start the bytes of
/// `large`, and its public inputs: the encoding of `small`.
pub fn prefix_session(small: &str, large: &str) -> (r: PrefixSession)
    ensures
        r.circuit.shorter is Some,
        r.circuit.larger is Some,
        r.circuit.shorter.unwrap()@ == encode_spec(small.spec_bytes()),
        r.circuit.larger.unwrap()@ == encode_spec(large.spec_bytes()),
        r.public_inputs@ == encode_spec(small.spec_bytes()),
{
    let shorter = encode_str(small);
    let larger = encode_str(large);
    let public_inputs = encode_str(small);
    PrefixSession {
        circuit: CompareCircuit { shorter: Some(shorter), larger: Some(larger) },
        public_inputs,
    }
}

/// Synthesizes a sum instance into a fresh system.
pub fn synthesize_sum(circuit: SumCircuit) -> (r: Result<ConstraintSystem, SynthesisError>)
    ensures
        r is Ok <==> (circuit.a is Some && circuit.b is Some && circuit.c is Some),
        r is Err ==> r == Err::<ConstraintSystem, SynthesisError>(SynthesisError::AssignmentMissing),
        r matches Ok(cs) ==> cs@ == sum_extend(
            empty_model(),
            circuit.a.unwrap(),
            circuit.b.unwrap(),
            circuit.c.unwrap(),
        ) && model_wf(cs@),
{
    let mut cs = ConstraintSystem::new();
    match circuit.generate_constraints(&mut cs) {
        Ok(()) => Ok(cs),
        Err(e) => Err(e),
    }
}

/// Synthesizes a prefix instance into a fresh system.
pub fn synthesize_prefix(circuit: CompareCircuit) -> (r: Result<ConstraintSystem, SynthesisError>)
    ensures
        r is Ok <==> (circuit.shorter is Some && circuit.larger is Some
            && circuit.shorter.unwrap()@.len() <= circuit.larger.unwrap()@.len()),
        r == Err::<ConstraintSystem, SynthesisError>(SynthesisError::AssignmentMissing) <==> (
        circuit.shorter is None || circuit.larger is None),
        r == Err::<ConstraintSystem, SynthesisError>(SynthesisError::Unsatisfiable) <==> (
        circuit.shorter is Some && circuit.larger is Some && circuit.shorter.unwrap()@.len()
            > circuit.larger.unwrap()@.len()),
        r matches Ok(cs) ==> cs@ == prefix_extend(
            empty_model(),
            circuit.shorter.unwrap()@,
            circuit.larger.unwrap()@,
        ) && model_wf(cs@),
{
    let mut cs = ConstraintSystem::new();
    match circuit.generate_constraints(&mut cs) {
        Ok(()) => Ok(cs),
        Err(e) => Err(e),
    }
}

/// The outcome of a session from the backend's answer to verify: `None`
/// when the call failed, else whether the proof verified. Only an accepted
/// proof ends the session well.
pub fn verdict(verified: Option<bool>) -> (r: Result<(), SessionError>)
    ensures
        r is Ok <==> verified == Some(true),
        r == Err::<(), SessionError>(SessionError::Rejected) <==> verified == Some(false),
        r == Err::<(), SessionError>(SessionError::VerifyFailed) <==> verified is None,
{
    match verified {
        Some(true) => Ok(()),
        Some(false) => Err(SessionError::Rejected),
        None => Err(SessionError::VerifyFailed),
    }
}

} // verus!
