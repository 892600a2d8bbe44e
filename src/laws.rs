//! What the synthesized systems guarantee: a true relation gives a satisfied
//! system, a false one does not, and a verifier that brings other public
//! inputs than the prover used finds the system unsatisfied. The prefix laws
//! ask that `shorter` be indexable by `usize`, as every vector is.
use crate::circuit::{prefix_constraint, prefix_extend, sum_extend};
use crate::field::Elem;
use crate::r1cs::{constraint_holds, empty_model, lc_value, satisfied, var_value, with_inputs, Var};
use vstd::prelude::*;

verus! {

proof fn sum_constraint_value(a: Elem, b: Elem, c: Elem, inputs: Seq<Elem>)
    requires
        inputs.len() == 1,
    ensures
        ({
            let m = with_inputs(sum_extend(empty_model(), a, b, c), inputs);
            &&& m.constraints.len() == 1
            &&& lc_value(m, m.constraints[0].lhs) == a.val + b.val
            &&& var_value(m, m.constraints[0].rhs) == inputs[0].val
        }),
{
    let m = with_inputs(sum_extend(empty_model(), a, b, c), inputs);
    let lhs = m.constraints[0].lhs;
    assert(lhs.drop_last() =~= seq![Var::Witness(0)]);
    assert(lhs.drop_last().drop_last() =~= Seq::<Var>::empty());
    assert(m.witnesses =~= seq![a, b]);
    reveal_with_fuel(lc_value, 3);
    assert(lhs =~= seq![Var::Witness(0), Var::Witness(1)]);
    assert(m.inputs == inputs);
}

/// Completeness of the sum relation: when `a + b == c`, the system that the
/// sum circuit builds from an empty one is satisfied.
pub proof fn sum_complete(a: Elem, b: Elem, c: Elem)
    requires
        a.val + b.val == c.val,
    ensures
        satisfied(sum_extend(empty_model(), a, b, c)),
{
    let m = sum_extend(empty_model(), a, b, c);
    sum_constraint_value(a, b, c, seq![c]);
    assert(with_inputs(m, seq![c]) == m) by {
        assert(m.inputs =~= seq![c]);
    }
    assert(constraint_holds(m, m.constraints[0]));
}

/// Soundness of the sum relation: when `a + b != c`, synthesis still builds
/// the system, but its assignment does not satisfy it.
pub proof fn sum_sound(a: Elem, b: Elem, c: Elem)
    requires
        a.val + b.val != c.val,
    ensures
        !satisfied(sum_extend(empty_model(), a, b, c)),
{
    let m = sum_extend(empty_model(), a, b, c);
    sum_constraint_value(a, b, c, seq![c]);
    assert(with_inputs(m, seq![c]) == m) by {
        assert(m.inputs =~= seq![c]);
    }
    assert(!constraint_holds(m, m.constraints[0]));
}

/// Public-input integrity of the sum relation: with the witnesses of a true
/// instance, a public input other than `c` leaves the system unsatisfied.
pub proof fn sum_public_input_integrity(a: Elem, b: Elem, c: Elem, public: Seq<Elem>)
    requires
        a.val + b.val == c.val,
        public.len() == 1,
        public != seq![c],
    ensures
        !satisfied(with_inputs(sum_extend(empty_model(), a, b, c), public)),
{
    let m = with_inputs(sum_extend(empty_model(), a, b, c), public);
    sum_constraint_value(a, b, c, public);
    assert(public[0] != c) by {
        if public[0] == c {
            assert(public =~= seq![c]);
        }
    }
    assert(!constraint_holds(m, m.constraints[0]));
}

proof fn prefix_constraint_value(shorter: Seq<Elem>, larger: Seq<Elem>, inputs: Seq<Elem>, j: int)
    requires
        shorter.len() <= larger.len(),
        shorter.len() <= usize::MAX,
        inputs.len() == shorter.len(),
        0 <= j < shorter.len(),
    ensures
        ({
            let m = with_inputs(prefix_extend(empty_model(), shorter, larger), inputs);
            &&& m.constraints.len() == shorter.len()
            &&& lc_value(m, m.constraints[j].lhs) == larger[j].val
            &&& var_value(m, m.constraints[j].rhs) == inputs[j].val
        }),
{
    let m = with_inputs(prefix_extend(empty_model(), shorter, larger), inputs);
    assert(m.constraints[j] == prefix_constraint(0, 0, j));
    let lhs = m.constraints[j].lhs;
    assert(lhs.drop_last() =~= Seq::<Var>::empty());
    assert(m.witnesses[j] == larger[j]);
    reveal_with_fuel(lc_value, 2);
    assert(m.inputs == inputs);
}

/// Completeness of the prefix relation: when `shorter` agrees element by
/// element with the start of `larger`, the system is satisfied.
pub proof fn prefix_complete(shorter: Seq<Elem>, larger: Seq<Elem>)
    requires
        shorter.len() <= larger.len(),
        shorter.len() <= usize::MAX,
        forall|j: int| 0 <= j < shorter.len() ==> shorter[j] == larger[j],
    ensures
        satisfied(prefix_extend(empty_model(), shorter, larger)),
{
    let m = prefix_extend(empty_model(), shorter, larger);
    assert(with_inputs(m, shorter) == m) by {
        assert(m.inputs =~= shorter);
    }
    assert forall|k: int| 0 <= k < m.constraints.len() implies constraint_holds(
        m,
        #[trigger] m.constraints[k],
    ) by {
        prefix_constraint_value(shorter, larger, shorter, k);
    }
}

/// Soundness of the prefix relation: a satisfied system means that
/// `shorter` agrees element by element with the start of `larger`.
pub proof fn prefix_sound(shorter: Seq<Elem>, larger: Seq<Elem>)
    requires
        shorter.len() <= larger.len(),
        shorter.len() <= usize::MAX,
        satisfied(prefix_extend(empty_model(), shorter, larger)),
    ensures
        forall|j: int| 0 <= j < shorter.len() ==> shorter[j] == larger[j],
{
    let m = prefix_extend(empty_model(), shorter, larger);
    assert(with_inputs(m, shorter) == m) by {
        assert(m.inputs =~= shorter);
    }
    assert forall|j: int| 0 <= j < shorter.len() implies shorter[j] == larger[j] by {
        prefix_constraint_value(shorter, larger, shorter, j);
        assert(constraint_holds(m, m.constraints[j]));
    }
}

/// Public-input integrity of the prefix relation: with the witnesses of a
/// true instance, a public input vector of the same length that differs
/// from `shorter` anywhere leaves the system unsatisfied.
pub proof fn prefix_public_input_integrity(shorter: Seq<Elem>, larger: Seq<Elem>, public: Seq<Elem>)
    requires
        shorter.len() <= larger.len(),
        shorter.len() <= usize::MAX,
        forall|j: int| 0 <= j < shorter.len() ==> shorter[j] == larger[j],
        public.len() == shorter.len(),
        public != shorter,
    ensures
        !satisfied(with_inputs(prefix_extend(empty_model(), shorter, larger), public)),
{
    let m = with_inputs(prefix_extend(empty_model(), shorter, larger), public);
    let j = choose|j: int| 0 <= j < shorter.len() && public[j] != shorter[j];
    assert(exists|j: int| 0 <= j < shorter.len() && public[j] != shorter[j]) by {
        if forall|j: int| 0 <= j < shorter.len() ==> public[j] == shorter[j] {
            assert(public =~= shorter);
        }
    }
    prefix_constraint_value(shorter, larger, public, j);
    assert(!constraint_holds(m, m.constraints[j]));
}

} // verus!
