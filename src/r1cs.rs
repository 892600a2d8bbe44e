//! A rank-1 constraint system restricted to what the relations here need:
//! public-input and witness variables, and constraints that equate a sum of
//! variables with one variable.
use crate::field::Elem;
use vstd::prelude::*;

verus! {

/// A slot of a constraint system: the index of a public input or of a witness.
#[derive(Clone, Copy, Debug, PartialEq, Eq, Structural)]
pub enum Var {
    Input(usize),
    Witness(usize),
}

/// The constraint `lhs[0] + lhs[1] + ... == rhs`.
#[derive(Debug)]
pub struct Constraint {
    pub lhs: Vec<Var>,
    pub rhs: Var,
}

/// What a constraint states, as values.
pub struct ConstraintModel {
    pub lhs: Seq<Var>,
    pub rhs: Var,
}

impl View for Constraint {
    type V = ConstraintModel;

    open spec fn view(&self) -> ConstraintModel {
        ConstraintModel { lhs: self.lhs@, rhs: self.rhs }
    }
}

/// A constraint system as values: the assignment of every variable and the
/// constraints accumulated so far.
pub struct SystemModel {
    pub inputs: Seq<Elem>,
    pub witnesses: Seq<Elem>,
    pub constraints: Seq<ConstraintModel>,
}

pub open spec fn empty_model() -> SystemModel {
    SystemModel { inputs: Seq::empty(), witnesses: Seq::empty(), constraints: Seq::empty() }
}

/// `v` names a variable that `m` has allocated.
pub open spec fn var_in(m: SystemModel, v: Var) -> bool {
    match v {
        Var::Input(i) => i < m.inputs.len(),
        Var::Witness(i) => i < m.witnesses.len(),
    }
}

/// The value that `m` assigns to `v`.
pub open spec fn var_value(m: SystemModel, v: Var) -> int {
    match v {
        Var::Input(i) => m.inputs[i as int].val as int,
        Var::Witness(i) => m.witnesses[i as int].val as int,
    }
}

/// The value of the sum of the variables in `lc`.
pub open spec fn lc_value(m: SystemModel, lc: Seq<Var>) -> int
    decreases lc.len(),
{
    if lc.len() == 0 {
        0
    } else {
        lc_value(m, lc.drop_last()) + var_value(m, lc.last())
    }
}

pub open spec fn constraint_in(m: SystemModel, c: ConstraintModel) -> bool {
    &&& forall|j: int| 0 <= j < c.lhs.len() ==> var_in(m, #[trigger] c.lhs[j])
    &&& var_in(m, c.rhs)
}

/// Every constraint of `m` speaks of allocated variables only.
pub open spec fn model_wf(m: SystemModel) -> bool {
    forall|k: int| 0 <= k < m.constraints.len() ==> constraint_in(m, #[trigger] m.constraints[k])
}

pub open spec fn constraint_holds(m: SystemModel, c: ConstraintModel) -> bool {
    lc_value(m, c.lhs) == var_value(m, c.rhs)
}

/// The assignment of `m` makes every constraint of `m` hold.
pub open spec fn satisfied(m: SystemModel) -> bool {
    forall|k: int| 0 <= k < m.constraints.len() ==> constraint_holds(m, #[trigger] m.constraints[k])
}

/// `m` with its public inputs replaced: what a verifier checks when it brings
/// its own public input vector.
pub open spec fn with_inputs(m: SystemModel, inputs: Seq<Elem>) -> SystemModel {
    SystemModel { inputs, ..m }
}

/// An assignment together with the constraints over it.
pub struct ConstraintSystem {
    inputs: Vec<Elem>,
    witnesses: Vec<Elem>,
    constraints: Vec<Constraint>,
}

impl View for ConstraintSystem {
    type V = SystemModel;

    closed spec fn view(&self) -> SystemModel {
        SystemModel {
            inputs: self.inputs@,
            witnesses: self.witnesses@,
            constraints: self.constraints@.map_values(|c: Constraint| c@),
        }
    }
}

impl ConstraintSystem {
    /// A system with no variables and no constraints.
    pub fn new() -> (r: ConstraintSystem)
        ensures
            r@ == empty_model(),
    {
        let r = ConstraintSystem { inputs: Vec::new(), witnesses: Vec::new(), constraints: Vec::new() };
        assert(r@.constraints =~= Seq::<ConstraintModel>::empty());
        r
    }

    /// Allocates a public input assigned `v`.
    pub fn new_input(&mut self, v: Elem) -> (r: Var)
        requires
            model_wf(old(self)@),
        ensures
            r == Var::Input(old(self)@.inputs.len() as usize),
            final(self)@ == (SystemModel { inputs: old(self)@.inputs.push(v), ..old(self)@ }),
            model_wf(final(self)@),
    {
        let i = self.inputs.len();
        self.inputs.push(v);
        proof {
            let m = self@;
            assert forall|k: int| 0 <= k < m.constraints.len() implies constraint_in(
                m,
                #[trigger] m.constraints[k],
            ) by {
                assert(constraint_in(old(self)@, old(self)@.constraints[k]));
            }
        }
        Var::Input(i)
    }

    /// Allocates a witness assigned `v`.
    pub fn new_witness(&mut self, v: Elem) -> (r: Var)
        requires
            model_wf(old(self)@),
        ensures
            r == Var::Witness(old(self)@.witnesses.len() as usize),
            final(self)@ == (SystemModel { witnesses: old(self)@.witnesses.push(v), ..old(self)@ }),
            model_wf(final(self)@),
    {
        let i = self.witnesses.len();
        self.witnesses.push(v);
        proof {
            let m = self@;
            assert forall|k: int| 0 <= k < m.constraints.len() implies constraint_in(
                m,
                #[trigger] m.constraints[k],
            ) by {
                assert(constraint_in(old(self)@, old(self)@.constraints[k]));
            }
        }
        Var::Witness(i)
    }

    /// Adds the constraint that the sum of `lhs` equals `rhs`.
    pub fn enforce_equal(&mut self, lhs: Vec<Var>, rhs: Var)
        requires
            model_wf(old(self)@),
            constraint_in(old(self)@, ConstraintModel { lhs: lhs@, rhs }),
        ensures
            final(self)@ == (SystemModel {
                constraints: old(self)@.constraints.push(ConstraintModel { lhs: lhs@, rhs }),
                ..old(self)@
            }),
            model_wf(final(self)@),
    {
        let ghost c = ConstraintModel { lhs: lhs@, rhs };
        self.constraints.push(Constraint { lhs, rhs });
        proof {
            assert(self@.constraints =~= old(self)@.constraints.push(c));
        }
    }

    /// The public inputs, in the order of allocation.
    pub fn inputs(&self) -> (r: &Vec<Elem>)
        ensures
            r@ == self@.inputs,
    {
        &self.inputs
    }

    /// The witnesses, in the order of allocation.
    pub fn witnesses(&self) -> (r: &Vec<Elem>)
        ensures
            r@ == self@.witnesses,
    {
        &self.witnesses
    }

    /// The constraints, in the order they were added.
    pub fn constraints(&self) -> (r: &Vec<Constraint>)
        ensures
            r@.map_values(|c: Constraint| c@) == self@.constraints,
    {
        &self.constraints
    }

    pub fn num_constraints(&self) -> (r: usize)
        ensures
            r == self@.constraints.len(),
    {
        self.constraints.len()
    }

    fn value_of(&self, v: Var) -> (r: u64)
        requires
            var_in(self@, v),
        ensures
            r as int == var_value(self@, v),
    {
        match v {
            Var::Input(i) => self.inputs[i].val,
            Var::Witness(i) => self.witnesses[i].val,
        }
    }

    fn lc_sum(&self, lc: &Vec<Var>) -> (r: u128)
        requires
            forall|j: int| 0 <= j < lc@.len() ==> var_in(self@, #[trigger] lc@[j]),
        ensures
            r as int == lc_value(self@, lc@),
    {
        let mut acc: u128 = 0;
        let mut i: usize = 0;
        while i < lc.len()
            invariant
                i <= lc@.len(),
                forall|j: int| 0 <= j < lc@.len() ==> var_in(self@, #[trigger] lc@[j]),
                acc as int == lc_value(self@, lc@.subrange(0, i as int)),
                acc as int <= i as int * 0xffff_ffff_ffff_ffff,
            decreases lc@.len() - i,
        {
            let x = self.value_of(lc[i]);
            let ghost n = i as int;
            assert(n < 0x1_0000_0000_0000_0000);
            assert((n + 1) * 0xffff_ffff_ffff_ffff == n * 0xffff_ffff_ffff_ffff + 0xffff_ffff_ffff_ffff)
                by (nonlinear_arith);
            assert((n + 1) * 0xffff_ffff_ffff_ffff <= 0x1_0000_0000_0000_0000 * 0xffff_ffff_ffff_ffff)
                by (nonlinear_arith)
                requires
                    n < 0x1_0000_0000_0000_0000,
            ;
            acc = acc + x as u128;
            i = i + 1;
            assert(lc@.subrange(0, i as int).drop_last() =~= lc@.subrange(0, n));
        }
        assert(lc@.subrange(0, lc@.len() as int) =~= lc@);
        acc
    }

    /// Decides whether the witnesses, with `public` in place of the public
    /// inputs, satisfy every constraint: a verifier's check of its own public
    /// input vector. A vector of another length never passes.
    pub fn check_with_inputs(self, public: Vec<Elem>) -> (r: bool)
        requires
            model_wf(self@),
        ensures
            r == (public@.len() == self@.inputs.len() && satisfied(with_inputs(self@, public@))),
    {
        if public.len() != self.inputs.len() {
            return false;
        }
        let mut cs = self;
        cs.inputs = public;
        proof {
            assert(cs@ == with_inputs(self@, public@));
            let m = cs@;
            assert forall|k: int| 0 <= k < m.constraints.len() implies constraint_in(
                m,
                #[trigger] m.constraints[k],
            ) by {
                assert(constraint_in(self@, self@.constraints[k]));
            }
        }
        cs.is_satisfied()
    }

    /// Decides whether the assignment satisfies every constraint.
    pub fn is_satisfied(&self) -> (r: bool)
        requires
            model_wf(self@),
        ensures
            r == satisfied(self@),
    {
        let mut k: usize = 0;
        while k < self.constraints.len()
            invariant
                k <= self@.constraints.len(),
                model_wf(self@),
                forall|q: int| 0 <= q < k ==> constraint_holds(self@, #[trigger] self@.constraints[q]),
            decreases self@.constraints.len() - k,
        {
            let c = &self.constraints[k];
            assert(self@.constraints[k as int] == c@);
            assert(constraint_in(self@, self@.constraints[k as int]));
            assert forall|j: int| 0 <= j < c.lhs@.len() implies var_in(self@, #[trigger] c.lhs@[j]) by {
                assert(c@.lhs[j] == c.lhs@[j]);
            }
            let s = self.lc_sum(&c.lhs);
            let v = self.value_of(c.rhs);
            if s != v as u128 {
                return false;
            }
            k = k + 1;
        }
        true
    }
}

} // verus!
