//! The two relation circuits and how each lowers itself into a constraint
//! system.
use crate::field::Elem;
use crate::r1cs::{ConstraintModel, ConstraintSystem, SystemModel, Var, model_wf};
use vstd::prelude::*;

verus! {

/// Why synthesis stopped.
#[derive(Clone, Copy, Debug, PartialEq, Eq, Structural)]
pub enum SynthesisError {
    /// A value that synthesis needs was not supplied.
    AssignmentMissing,
    /// The instance breaks a structural precondition of its relation.
    Unsatisfiable,
}

/// Knowledge of hidden `a` and `b` whose sum is the public `c`.
#[derive(Clone, Copy, Debug)]
pub struct SumCircuit {
    pub a: Option<Elem>,
    pub b: Option<Elem>,
    pub c: Option<Elem>,
}

/// The public sequence `shorter` is a prefix of the hidden sequence `larger`.
#[derive(Clone, Debug, Default)]
pub struct CompareCircuit {
    pub shorter: Option<Vec<Elem>>,
    pub larger: Option<Vec<Elem>>,
}

/// `m` after the sum circuit for `a`, `b`, `c` has been synthesized into it:
/// witnesses `a` and `b`, public input `c`, and the constraint `a + b == c`.
pub open spec fn sum_extend(m: SystemModel, a: Elem, b: Elem, c: Elem) -> SystemModel {
    let w = m.witnesses.len();
    let i = m.inputs.len();
    SystemModel {
        inputs: m.inputs.push(c),
        witnesses: m.witnesses.push(a).push(b),
        constraints: m.constraints.push(
            ConstraintModel {
                lhs: seq![Var::Witness(w as usize), Var::Witness((w + 1) as usize)],
                rhs: Var::Input(i as usize),
            },
        ),
    }
}

/// The constraint that the `j`-th allocated witness equals the `j`-th
/// allocated public input, counted from `w` and `i`.
pub open spec fn prefix_constraint(w: int, i: int, j: int) -> ConstraintModel {
    ConstraintModel { lhs: seq![Var::Witness((w + j) as usize)], rhs: Var::Input((i + j) as usize) }
}

/// `m` after the prefix circuit has been synthesized into it: one public
/// input per element of `shorter`, one witness per element of the first
/// `shorter.len()` elements of `larger`, and an equality between each pair.
pub open spec fn prefix_extend(m: SystemModel, shorter: Seq<Elem>, larger: Seq<Elem>) -> SystemModel {
    let w = m.witnesses.len() as int;
    let i = m.inputs.len() as int;
    SystemModel {
        inputs: m.inputs + shorter,
        witnesses: m.witnesses + larger.take(shorter.len() as int),
        constraints: m.constraints + Seq::new(
            shorter.len(),
            |j: int| prefix_constraint(w, i, j),
        ),
    }
}

impl SumCircuit {
    /// An instance with all three values present.
    pub fn new(a: u64, b: u64, c: u64) -> (r: SumCircuit)
        ensures
            r.a == Some(Elem { val: a }),
            r.b == Some(Elem { val: b }),
            r.c == Some(Elem { val: c }),
    {
        SumCircuit {
            a: Some(Elem::from_u64(a)),
            b: Some(Elem::from_u64(b)),
            c: Some(Elem::from_u64(c)),
        }
    }

    /// Allocates `a` and `b` as witnesses and `c` as a public input, then
    /// adds `a + b == c`. Fails when one of the three values is absent.
    pub fn generate_constraints(self, cs: &mut ConstraintSystem) -> (r: Result<(), SynthesisError>)
        requires
            model_wf(old(cs)@),
        ensures
            r is Ok <==> (self.a is Some && self.b is Some && self.c is Some),
            r is Err ==> r == Err::<(), SynthesisError>(SynthesisError::AssignmentMissing),
            r is Ok ==> final(cs)@ == sum_extend(
                old(cs)@,
                self.a.unwrap(),
                self.b.unwrap(),
                self.c.unwrap(),
            ),
            model_wf(final(cs)@),
    {
        let a = match self.a {
            Some(a) => a,
            None => return Err(SynthesisError::AssignmentMissing),
        };
        let a_var = cs.new_witness(a);
        let b = match self.b {
            Some(b) => b,
            None => return Err(SynthesisError::AssignmentMissing),
        };
        let b_var = cs.new_witness(b);
        let c = match self.c {
            Some(c) => c,
            None => return Err(SynthesisError::AssignmentMissing),
        };
        let c_var = cs.new_input(c);
        let lhs = vec![a_var, b_var];
        cs.enforce_equal(lhs, c_var);
        Ok(())
    }
}

impl CompareCircuit {
    /// Allocates `shorter` as public inputs and the same number of leading
    /// elements of `larger` as witnesses, and equates them pairwise. The rest
    /// of `larger` never enters the system. Fails when a sequence is absent,
    /// or when `shorter` is the longer one; in that case nothing is allocated.
    pub fn generate_constraints(self, cs: &mut ConstraintSystem) -> (r: Result<(), SynthesisError>)
        requires
            model_wf(old(cs)@),
        ensures
            r is Ok <==> (self.shorter is Some && self.larger is Some
                && self.shorter.unwrap()@.len() <= self.larger.unwrap()@.len()),
            r == Err::<(), SynthesisError>(SynthesisError::AssignmentMissing) <==> (self.shorter is None
                || self.larger is None),
            r == Err::<(), SynthesisError>(SynthesisError::Unsatisfiable) <==> (self.shorter is Some
                && self.larger is Some && self.shorter.unwrap()@.len()
                > self.larger.unwrap()@.len()),
            r is Err ==> final(cs)@ == old(cs)@,
            r is Ok ==> final(cs)@ == prefix_extend(
                old(cs)@,
                self.shorter.unwrap()@,
                self.larger.unwrap()@,
            ),
            model_wf(final(cs)@),
    {
        let shorter = match self.shorter {
            Some(s) => s,
            None => return Err(SynthesisError::AssignmentMissing),
        };
        let larger = match self.larger {
            Some(l) => l,
            None => return Err(SynthesisError::AssignmentMissing),
        };
        if shorter.len() > larger.len() {
            return Err(SynthesisError::Unsatisfiable);
        }
        let ghost m0 = cs@;
        let ghost w = m0.witnesses.len() as int;
        let ghost i0 = m0.inputs.len() as int;
        let mut j: usize = 0;
        while j < shorter.len()
            invariant
                j <= shorter@.len() <= larger@.len(),
                model_wf(cs@),
                w == m0.witnesses.len(),
                i0 == m0.inputs.len(),
                cs@ == prefix_extend(m0, shorter@.take(j as int), larger@),
            decreases shorter@.len() - j,
        {
            assert(cs@.witnesses.len() == w + j);
            assert(cs@.inputs.len() == i0 + j);
            let in_var = cs.new_input(shorter[j]);
            let wit_var = cs.new_witness(larger[j]);
            let lhs = vec![wit_var];
            proof {
                assert(lhs@ =~= seq![Var::Witness((w + j) as usize)]);
            }
            cs.enforce_equal(lhs, in_var);
            j = j + 1;
            proof {
                let t = shorter@.take(j as int);
                let e = prefix_extend(m0, t, larger@);
                assert(cs@.inputs =~= e.inputs);
                assert(cs@.witnesses =~= e.witnesses);
                assert(cs@.constraints =~= e.constraints);
            }
        }
        proof {
            assert(shorter@.take(j as int) =~= shorter@);
        }
        Ok(())
    }
}

} // verus!
