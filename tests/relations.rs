use simple_arkworks::circuit::{CompareCircuit, SumCircuit, SynthesisError};
use simple_arkworks::field::{encode_bytes, encode_str, Elem};
use simple_arkworks::r1cs::{ConstraintSystem, Var};
use simple_arkworks::session::{
    prefix_session, sum_session, synthesize_prefix, synthesize_sum, verdict, SessionError,
};

fn elems(vals: &[u64]) -> Vec<Elem> {
    vals.iter().map(|v| Elem::from_u64(*v)).collect()
}

#[test]
fn sum_true_relation_is_satisfied() {
    let cs = synthesize_sum(SumCircuit::new(3, 4, 7)).unwrap();
    assert_eq!(cs.inputs(), &elems(&[7]));
    assert_eq!(cs.witnesses(), &elems(&[3, 4]));
    assert_eq!(cs.num_constraints(), 1);
    let c = &cs.constraints()[0];
    assert_eq!(c.lhs, vec![Var::Witness(0), Var::Witness(1)]);
    assert_eq!(c.rhs, Var::Input(0));
    assert!(cs.is_satisfied());
}

#[test]
fn sum_large_values() {
    let cs = synthesize_sum(SumCircuit::new(u64::MAX, u64::MAX - 1, 0)).unwrap();
    assert!(!cs.is_satisfied());
    let cs = synthesize_sum(SumCircuit::new(u64::MAX - 5, 5, u64::MAX)).unwrap();
    assert!(cs.is_satisfied());
}

#[test]
fn sum_false_relation_synthesizes_but_is_not_satisfied() {
    let cs = synthesize_sum(SumCircuit::new(3, 4, 8)).unwrap();
    assert_eq!(cs.num_constraints(), 1);
    assert!(!cs.is_satisfied());
}

#[test]
fn sum_missing_value_fails() {
    for circuit in [
        SumCircuit { a: None, b: Some(Elem::from_u64(4)), c: Some(Elem::from_u64(7)) },
        SumCircuit { a: Some(Elem::from_u64(3)), b: None, c: Some(Elem::from_u64(7)) },
        SumCircuit { a: Some(Elem::from_u64(3)), b: Some(Elem::from_u64(4)), c: None },
    ] {
        assert_eq!(synthesize_sum(circuit).err(), Some(SynthesisError::AssignmentMissing));
    }
}

#[test]
fn sum_into_nonempty_system_uses_fresh_indices() {
    let mut cs = ConstraintSystem::new();
    SumCircuit::new(1, 2, 3).generate_constraints(&mut cs).unwrap();
    SumCircuit::new(10, 20, 30).generate_constraints(&mut cs).unwrap();
    assert_eq!(cs.inputs(), &elems(&[3, 30]));
    assert_eq!(cs.witnesses(), &elems(&[1, 2, 10, 20]));
    let c = &cs.constraints()[1];
    assert_eq!(c.lhs, vec![Var::Witness(2), Var::Witness(3)]);
    assert_eq!(c.rhs, Var::Input(1));
    assert!(cs.is_satisfied());
}

#[test]
fn prefix_true_relation_is_satisfied() {
    let session = prefix_session("bc", "bcdef");
    let cs = synthesize_prefix(session.circuit).unwrap();
    assert_eq!(cs.inputs(), &elems(&[98, 99]));
    assert_eq!(cs.witnesses(), &elems(&[98, 99]));
    assert_eq!(cs.num_constraints(), 2);
    assert_eq!(cs.constraints()[1].lhs, vec![Var::Witness(1)]);
    assert_eq!(cs.constraints()[1].rhs, Var::Input(1));
    assert!(cs.is_satisfied());
    assert_eq!(session.public_inputs, elems(&[98, 99]));
}

#[test]
fn prefix_not_a_prefix_is_not_satisfied() {
    let session = prefix_session("bad", "bcdef");
    let cs = synthesize_prefix(session.circuit).unwrap();
    assert_eq!(cs.num_constraints(), 3);
    assert!(!cs.is_satisfied());
}

#[test]
fn prefix_equal_and_empty_sequences() {
    let cs = synthesize_prefix(prefix_session("abc", "abc").circuit).unwrap();
    assert!(cs.is_satisfied());
    let cs = synthesize_prefix(prefix_session("", "abc").circuit).unwrap();
    assert_eq!(cs.num_constraints(), 0);
    assert!(cs.inputs().is_empty());
    assert!(cs.witnesses().is_empty());
    assert!(cs.is_satisfied());
}

#[test]
fn prefix_longer_shorter_is_unsatisfiable() {
    let session = prefix_session("abcdef", "ab");
    assert_eq!(synthesize_prefix(session.circuit).err(), Some(SynthesisError::Unsatisfiable));
}

#[test]
fn prefix_unsatisfiable_leaves_system_unchanged() {
    let mut cs = ConstraintSystem::new();
    let circuit = CompareCircuit { shorter: Some(elems(&[1, 2, 3])), larger: Some(elems(&[1])) };
    assert_eq!(circuit.generate_constraints(&mut cs), Err(SynthesisError::Unsatisfiable));
    assert!(cs.inputs().is_empty());
    assert!(cs.witnesses().is_empty());
    assert_eq!(cs.num_constraints(), 0);
}

#[test]
fn prefix_missing_sequence_fails() {
    let no_larger = CompareCircuit { shorter: Some(elems(&[1])), larger: None };
    assert_eq!(synthesize_prefix(no_larger).err(), Some(SynthesisError::AssignmentMissing));
    let no_shorter = CompareCircuit { shorter: None, larger: Some(elems(&[1])) };
    assert_eq!(synthesize_prefix(no_shorter).err(), Some(SynthesisError::AssignmentMissing));
    let neither = CompareCircuit::default();
    assert_eq!(synthesize_prefix(neither).err(), Some(SynthesisError::AssignmentMissing));
}

#[test]
fn prefix_altered_public_input_is_rejected() {
    let session = prefix_session("bc", "bcdef");
    let cs = synthesize_prefix(session.circuit).unwrap();
    let mut altered = session.public_inputs.clone();
    altered[1] = Elem::from_u64(100);
    assert!(!cs.check_with_inputs(altered));
    let cs = synthesize_prefix(prefix_session("bc", "bcdef").circuit).unwrap();
    assert!(cs.check_with_inputs(session.public_inputs));
}

#[test]
fn public_input_of_wrong_length_is_rejected() {
    let cs = synthesize_prefix(prefix_session("bc", "bcdef").circuit).unwrap();
    assert!(!cs.check_with_inputs(elems(&[98])));
}

#[test]
fn sum_altered_public_input_is_rejected() {
    let session = sum_session(3, 4, 7);
    assert_eq!(session.public_inputs, elems(&[7]));
    let cs = synthesize_sum(session.circuit).unwrap();
    assert!(!cs.check_with_inputs(elems(&[8])));
    let cs = synthesize_sum(session.circuit).unwrap();
    assert!(cs.check_with_inputs(session.public_inputs));
}

#[test]
fn encoding_is_bytewise_and_deterministic() {
    assert_eq!(encode_str("bcdef"), elems(&[98, 99, 100, 101, 102]));
    assert_eq!(encode_str("bcdef"), encode_str("bcdef"));
    assert_ne!(encode_str("ab"), encode_str("ba"));
    assert_eq!(encode_bytes(&[0, 255]), elems(&[0, 255]));
    assert!(encode_str("").is_empty());
}

#[test]
fn verdict_policy() {
    assert_eq!(verdict(Some(true)), Ok(()));
    assert_eq!(verdict(Some(false)), Err(SessionError::Rejected));
    assert_eq!(verdict(None), Err(SessionError::VerifyFailed));
}
