use vstd::prelude::*;

pub mod boolvar;
pub mod division;

use crate::backend::{Call, Handle, Operator, ShiftedRelation};
use crate::constraint::{ArithmeticOperator, EqualityOperator};
use crate::IntOrIntVar;
use boolvar::BoolVar;

use division::{
    div_i32, division_defined, lemma_trunc_div_monotone_in_dividend,
    lemma_trunc_div_monotone_in_divisor, rem_i32, trunc_div, trunc_rem,
};

verus! {

/// An integer decision variable of a model, as the pair of backend handles of
/// the variable and of its model.
#[derive(Debug, Clone, Copy, PartialEq, Eq)]
pub struct IntVar {
    pub handle: Handle,
    pub model: Handle,
}

/// Whether a two-operator arithmetic constraint has one relation and one
/// arithmetic operation, in either order (`x op y rel z` or `x rel y op z`).
pub open spec fn operators_well_formed(op1: Operator, op2: Operator) -> bool {
    ||| (op1 matches Operator::Relation(_) && op2 matches Operator::Arithmetic(_))
    ||| (op1 matches Operator::Arithmetic(_) && op2 matches Operator::Relation(_))
}

/// The backend's reification of a comparison with a constant: the relation
/// and the constant it is asked about when `rel` is compared with `c`.  The
/// backend has no entry point for `<=` and `>=` with a constant, so those are
/// asked as `< c + 1` and `> c - 1`.
pub open spec fn reified_constant_relation(rel: EqualityOperator, c: i32) -> (ShiftedRelation, int) {
    match rel {
        EqualityOperator::Eq => (ShiftedRelation::Eq, c as int),
        EqualityOperator::Neq => (ShiftedRelation::Ne, c as int),
        EqualityOperator::Lt => (ShiftedRelation::Lt, c as int),
        EqualityOperator::Gt => (ShiftedRelation::Gt, c as int),
        EqualityOperator::Leq => (ShiftedRelation::Lt, c + 1),
        EqualityOperator::Geq => (ShiftedRelation::Gt, c - 1),
    }
}

/// Whether a comparison with a constant holds of every value of `i32`:
/// `<= i32::MAX` and `>= i32::MIN`.  There the shifted constant would not be
/// a value of `i32`, and the backend is asked the relation of the variable
/// with itself, which holds of every value too.
pub open spec fn reified_constant_always_holds(rel: EqualityOperator, c: i32) -> bool {
    ||| rel == EqualityOperator::Leq && c == i32::MAX
    ||| rel == EqualityOperator::Geq && c == i32::MIN
}

/// The backend call that reifies `(x rel c) <=> b` for a constant `c`.
pub open spec fn reify_constant_call(rel: EqualityOperator, c: i32, model: Handle, x: Handle, b: Handle) -> Call {
    if reified_constant_always_holds(rel, c) {
        Call::ReifyVarVar { rel, model, x, y: x, b }
    } else {
        Call::ReifyVarConstant {
            rel: reified_constant_relation(rel, c).0,
            model,
            x,
            c: reified_constant_relation(rel, c).1 as i32,
            b,
        }
    }
}

/// The comparison the backend is asked to reify is the one requested: for
/// every value `v` of the variable, the backend's relation with its constant
/// holds exactly when the requested relation with `c` holds.  The shifted
/// constant is a value of `i32` except where the requested relation holds of
/// every value of `i32`; there the relation of `v` with itself, which is
/// asked instead, holds as well.
pub proof fn lemma_reified_constant_relation_equivalent(rel: EqualityOperator, c: i32, v: int)
    ensures
        reified_constant_relation(rel, c).0.holds(v, reified_constant_relation(rel, c).1)
            <==> rel.holds(v, c as int),
        !reified_constant_always_holds(rel, c) ==> i32::MIN <= reified_constant_relation(rel, c).1
            <= i32::MAX,
        reified_constant_always_holds(rel, c) ==> rel.holds(v, v),
        reified_constant_always_holds(rel, c) && i32::MIN <= v <= i32::MAX ==> rel.holds(v, c as int),
{
}

/// What the backend call for `(x rel c) <=> b` asks: either the backend's
/// comparison with a constant, which holds of a value `v` exactly when
/// `v rel c` does, or, where `v rel c` holds of every value of `i32`, the
/// same comparison of `x` with itself, which holds of every value too.  The
/// call is about `x`, `b` and `model` and no other variable.
pub proof fn lemma_reify_constant_call_meaning(rel: EqualityOperator, c: i32, model: Handle, x: Handle, b: Handle)
    ensures
        match reify_constant_call(rel, c, model, x, b) {
            Call::ReifyVarConstant { rel: r, model: m, x: xx, c: d, b: bb } => {
                &&& m == model && xx == x && bb == b
                &&& forall|v: int| #[trigger] r.holds(v, d as int) <==> rel.holds(v, c as int)
            },
            Call::ReifyVarVar { rel: r, model: m, x: xx, y: yy, b: bb } => {
                &&& m == model && xx == x && yy == x && bb == b && r == rel
                &&& forall|v: int| #[trigger] rel.holds(v, v)
                &&& forall|v: int| i32::MIN <= v <= i32::MAX ==> #[trigger] rel.holds(v, c as int)
            },
            _ => false,
        },
{
    if !reified_constant_always_holds(rel, c) {
        let (r, d) = reified_constant_relation(rel, c);
        assert forall|v: int| #[trigger] r.holds(v, (d as i32) as int) <==> rel.holds(v, c as int) by {
            lemma_reified_constant_relation_equivalent(rel, c, v);
        }
    }
}

impl IntVar {
    /// The variable (or view) that the backend returned at `addr` for `model`.
    /// A null address is a failure of the backend, left out by `requires`.
    pub fn created(addr: usize, model: Handle) -> (v: IntVar)
        requires
            addr != 0,
        ensures
            v.handle.address() == addr,
            v.model == model,
    {
        IntVar { handle: Handle::new(addr), model }
    }

    /// The boolean view that the backend returned at `addr` for this
    /// variable's model.
    pub fn boolean_view(&self, addr: usize) -> (b: BoolVar)
        requires
            addr != 0,
        ensures
            b.int_var.handle.address() == addr,
            b.int_var.model == self.model,
    {
        BoolVar::from_raw_handle(Handle::new(addr), self.model)
    }

    /// The call that reads the lower bound of the domain.
    pub fn lb_call(&self) -> (c: Call)
        ensures
            c == (Call::LowerBound { var: self.handle }),
    {
        Call::LowerBound { var: self.handle }
    }

    /// The call that reads the upper bound of the domain.
    pub fn ub_call(&self) -> (c: Call)
        ensures
            c == (Call::UpperBound { var: self.handle }),
    {
        Call::UpperBound { var: self.handle }
    }

    /// The call that reads the name of the variable.
    pub fn name_call(&self) -> (c: Call)
        ensures
            c == (Call::VariableName { var: self.handle }),
    {
        Call::VariableName { var: self.handle }
    }

    /// The call that asks whether the variable has a single value left; its
    /// answer is read by `flag_from_code`.
    pub fn is_instantiated_call(&self) -> (c: Call)
        ensures
            c == (Call::IsInstantiated { var: self.handle }),
    {
        Call::IsInstantiated { var: self.handle }
    }

    /// The call that asks whether the variable is a view of another variable;
    /// its answer is read by `flag_from_code`.
    pub fn is_view_call(&self) -> (c: Call)
        ensures
            c == (Call::IsView { var: self.handle }),
    {
        Call::IsView { var: self.handle }
    }

    /// The call that asks whether the domain is enumerated (as opposed to
    /// bounded); its answer is read by `flag_from_code`.
    pub fn has_enumerated_domain_call(&self) -> (c: Call)
        ensures
            c == (Call::HasEnumeratedDomain { var: self.handle }),
    {
        Call::HasEnumeratedDomain { var: self.handle }
    }

    /// The value of an instantiated variable is read from the backend; an
    /// uninstantiated one has none, and nothing is asked.
    pub fn value_call(&self, instantiated: bool) -> (c: Option<Call>)
        ensures
            instantiated ==> c == Some(Call::Value { var: self.handle }),
            !instantiated ==> c is None,
    {
        if instantiated {
            Some(Call::Value { var: self.handle })
        } else {
            None
        }
    }

    /// The values of the domain are read only when the domain is enumerated;
    /// a bounded domain has no list of values, and nothing is asked.
    pub fn domain_values_call(&self, enumerated: bool) -> (c: Option<Call>)
        ensures
            enumerated ==> c == Some(Call::DomainValues { var: self.handle }),
            !enumerated ==> c is None,
    {
        if enumerated {
            Some(Call::DomainValues { var: self.handle })
        } else {
            None
        }
    }

    /// The view `self + offset` (the result of `x + c`).
    pub fn offset_view_call(&self, offset: i32) -> (c: Call)
        ensures
            c == (Call::OffsetView { var: self.handle, offset }),
    {
        Call::OffsetView { var: self.handle, offset }
    }

    /// The view `self - c`, that is the offset view by `-c`.  The negation of
    /// `i32::MIN` overflows: `requires` leaves it out.
    pub fn minus_constant_view_call(&self, c: i32) -> (r: Call)
        requires
            c != i32::MIN,
        ensures
            r == (Call::OffsetView { var: self.handle, offset: (-c) as i32 }),
    {
        Call::OffsetView { var: self.handle, offset: -c }
    }

    /// The view `self * scale` (the result of `x * c`).
    pub fn scale_view_call(&self, scale: i32) -> (c: Call)
        ensures
            c == (Call::ScaleView { var: self.handle, scale }),
    {
        Call::ScaleView { var: self.handle, scale }
    }

    /// The view `-self` (the result of `-x`).
    pub fn minus_view_call(&self) -> (c: Call)
        ensures
            c == (Call::MinusView { var: self.handle }),
    {
        Call::MinusView { var: self.handle }
    }

    /// The boolean view of `self == value`.
    pub fn eq_view_call(&self, value: i32) -> (c: Call)
        ensures
            c == (Call::EqView { var: self.handle, value }),
    {
        Call::EqView { var: self.handle, value }
    }

    /// The boolean view of `self >= value`.
    pub fn ge_view_call(&self, value: i32) -> (c: Call)
        ensures
            c == (Call::GeView { var: self.handle, value }),
    {
        Call::GeView { var: self.handle, value }
    }

    /// The boolean view of `self <= value`.
    pub fn le_view_call(&self, value: i32) -> (c: Call)
        ensures
            c == (Call::LeView { var: self.handle, value }),
    {
        Call::LeView { var: self.handle, value }
    }

    /// The boolean view of `self != value`.
    pub fn ne_view_call(&self, value: i32) -> (c: Call)
        ensures
            c == (Call::NeView { var: self.handle, value }),
    {
        Call::NeView { var: self.handle, value }
    }

    /// The variable created to hold the result of `x + y`, `x - y`, `x * y`,
    /// `x / y` or `x % y`: a nameless variable of this model with the domain
    /// that `Bounds` computes.
    pub fn result_var_call(&self, domain: Bounds) -> (c: Call)
        ensures
            c == (Call::IntVarRange { model: self.model, lb: domain.lb, ub: domain.ub }),
    {
        Call::IntVarRange { model: self.model, lb: domain.lb, ub: domain.ub }
    }

    /// The constraint `self op y`: against a constant it is the backend's
    /// variable-constant form, against a variable its variable-variable form.
    pub fn arithm_call(&self, op: EqualityOperator, y: IntOrIntVar) -> (c: Call)
        ensures
            y matches IntOrIntVar::Int(k) ==> c == (Call::ArithmConstant {
                model: self.model,
                x: self.handle,
                op,
                c: k,
            }),
            y matches IntOrIntVar::IntVar(v) ==> c == (Call::ArithmVar {
                model: self.model,
                x: self.handle,
                op,
                y: v.handle,
            }),
    {
        match y {
            IntOrIntVar::Int(k) => Call::ArithmConstant { model: self.model, x: self.handle, op, c: k },
            IntOrIntVar::IntVar(v) => Call::ArithmVar {
                model: self.model,
                x: self.handle,
                op,
                y: v.handle,
            },
        }
    }

    /// The middle operand of a two-operator constraint must be a variable: a
    /// constant is first turned into a constant variable of this model.
    pub fn arithm2_operand_call(&self, y: IntOrIntVar) -> (c: Option<Call>)
        ensures
            y matches IntOrIntVar::Int(k) ==> c == Some(Call::IntVarConstant { model: self.model, value: k }),
            y is IntVar ==> c is None,
    {
        match y {
            IntOrIntVar::Int(k) => Some(Call::IntVarConstant { model: self.model, value: k }),
            IntOrIntVar::IntVar(_) => None,
        }
    }

    /// The constraint `self op1 y op2 z` (one of the operators a relation, the
    /// other an arithmetic operation), with `y` already a variable.
    pub fn arithm2_call(&self, op1: Operator, y: Handle, op2: Operator, z: IntOrIntVar) -> (c: Call)
        requires
            operators_well_formed(op1, op2),
        ensures
            z matches IntOrIntVar::Int(k) ==> c == (Call::Arithm2Constant {
                model: self.model,
                x: self.handle,
                op1,
                y,
                op2,
                c: k,
            }),
            z matches IntOrIntVar::IntVar(v) ==> c == (Call::Arithm2Var {
                model: self.model,
                x: self.handle,
                op1,
                y,
                op2,
                z: v.handle,
            }),
    {
        match z {
            IntOrIntVar::Int(k) => Call::Arithm2Constant {
                model: self.model,
                x: self.handle,
                op1,
                y,
                op2,
                c: k,
            },
            IntOrIntVar::IntVar(v) => Call::Arithm2Var {
                model: self.model,
                x: self.handle,
                op1,
                y,
                op2,
                z: v.handle,
            },
        }
    }

    /// The constraint `self op rhs = result` linking the variable created by
    /// an arithmetic operator to its operands (a constant operand is first
    /// turned into a constant variable, see `arithm2_operand_call`).
    pub fn link_result_call(&self, op: ArithmeticOperator, rhs: Handle, result: &IntVar) -> (c: Call)
        ensures
            c == (Call::Arithm2Var {
                model: self.model,
                x: self.handle,
                op1: Operator::Arithmetic(op),
                y: rhs,
                op2: Operator::Relation(EqualityOperator::Eq),
                z: result.handle,
            }),
    {
        self.arithm2_call(
            Operator::Arithmetic(op),
            rhs,
            Operator::Relation(EqualityOperator::Eq),
            IntOrIntVar::IntVar(*result),
        )
    }

    /// The reification `(self rel y) <=> b`, posted directly by the backend.
    /// A comparison with a constant uses the backend's variable-constant entry
    /// points, which know `=`, `!=`, `<` and `>`: `<= c` is asked as `< c + 1`
    /// and `>= c` as `> c - 1`; `<= i32::MAX` and `>= i32::MIN`, which hold
    /// of every value, are asked as the relation of the variable with itself.
    pub fn reify_call(&self, rel: EqualityOperator, y: IntOrIntVar, b: &BoolVar) -> (c: Call)
        ensures
            y matches IntOrIntVar::IntVar(v) ==> c == (Call::ReifyVarVar {
                rel,
                model: self.model,
                x: self.handle,
                y: v.handle,
                b: b.int_var.handle,
            }),
            y matches IntOrIntVar::Int(k) ==> c == reify_constant_call(
                rel,
                k,
                self.model,
                self.handle,
                b.int_var.handle,
            ),
            y matches IntOrIntVar::Int(k) ==> (c matches Call::ReifyVarConstant { rel: r, c: d, .. } ==> forall|
                v: int,
            | #[trigger] r.holds(v, d as int) <==> rel.holds(v, k as int)),
            y matches IntOrIntVar::Int(k) ==> (c matches Call::ReifyVarVar { rel: r, x, y: yy, .. } ==> r == rel
                && x == self.handle && yy == self.handle && forall|v: int|
                i32::MIN <= v <= i32::MAX ==> #[trigger] rel.holds(v, k as int)),
    {
        proof {
            if let IntOrIntVar::Int(k) = y {
                lemma_reify_constant_call_meaning(rel, k, self.model, self.handle, b.int_var.handle);
            }
        }
        match y {
            IntOrIntVar::IntVar(v) => Call::ReifyVarVar {
                rel,
                model: self.model,
                x: self.handle,
                y: v.handle,
                b: b.int_var.handle,
            },
            IntOrIntVar::Int(k) => {
                if (rel == EqualityOperator::Leq && k == i32::MAX) || (rel == EqualityOperator::Geq && k
                    == i32::MIN) {
                    return Call::ReifyVarVar {
                        rel,
                        model: self.model,
                        x: self.handle,
                        y: self.handle,
                        b: b.int_var.handle,
                    };
                }
                let (r, d) = match rel {
                    EqualityOperator::Eq => (ShiftedRelation::Eq, k),
                    EqualityOperator::Neq => (ShiftedRelation::Ne, k),
                    EqualityOperator::Lt => (ShiftedRelation::Lt, k),
                    EqualityOperator::Gt => (ShiftedRelation::Gt, k),
                    EqualityOperator::Leq => (ShiftedRelation::Lt, k + 1),
                    EqualityOperator::Geq => (ShiftedRelation::Gt, k - 1),
                };
                Call::ReifyVarConstant { rel: r, model: self.model, x: self.handle, c: d, b: b.int_var.handle }
            },
        }
    }

    /// The reification `(self rel y + c) <=> b`, posted directly by the backend.
    pub fn reify_shifted_call(&self, rel: ShiftedRelation, y: &IntVar, c: i32, b: &BoolVar) -> (r: Call)
        ensures
            r == (Call::ReifyVarShifted {
                rel,
                model: self.model,
                x: self.handle,
                y: y.handle,
                c,
                b: b.int_var.handle,
            }),
    {
        Call::ReifyVarShifted { rel, model: self.model, x: self.handle, y: y.handle, c, b: b.int_var.handle }
    }

    /// The constraint that `self` takes its values in the table held by the
    /// backend array `table`.
    pub fn member_table_call(&self, table: Handle) -> (c: Call)
        ensures
            c == (Call::MemberTable { model: self.model, var: self.handle, table }),
    {
        Call::MemberTable { model: self.model, var: self.handle, table }
    }

    /// The constraint that `self` takes its values in `[lb, ub]`.
    pub fn member_bounds_call(&self, lb: i32, ub: i32) -> (c: Call)
        ensures
            c == (Call::MemberBounds { model: self.model, var: self.handle, lb, ub }),
    {
        Call::MemberBounds { model: self.model, var: self.handle, lb, ub }
    }

    /// The constraint that `self` takes no value of the table held by `table`.
    pub fn not_member_table_call(&self, table: Handle) -> (c: Call)
        ensures
            c == (Call::NotMemberTable { model: self.model, var: self.handle, table }),
    {
        Call::NotMemberTable { model: self.model, var: self.handle, table }
    }

    /// The constraint that `self` takes no value in `[lb, ub]`.
    pub fn not_member_bounds_call(&self, lb: i32, ub: i32) -> (c: Call)
        ensures
            c == (Call::NotMemberBounds { model: self.model, var: self.handle, lb, ub }),
    {
        Call::NotMemberBounds { model: self.model, var: self.handle, lb, ub }
    }

    /// The constraint `self = |y|`.
    pub fn abs_call(&self, y: &IntVar) -> (c: Call)
        ensures
            c == (Call::Absolute { model: self.model, x: self.handle, y: y.handle }),
    {
        Call::Absolute { model: self.model, x: self.handle, y: y.handle }
    }

    /// The constraint `self = y^2`.
    pub fn square_call(&self, y: &IntVar) -> (c: Call)
        ensures
            c == (Call::Square { model: self.model, x: self.handle, y: y.handle }),
    {
        Call::Square { model: self.model, x: self.handle, y: y.handle }
    }

    /// The constraint `self^c = y`.
    pub fn pow_call(&self, c: i32, y: &IntVar) -> (r: Call)
        ensures
            r == (Call::Pow { model: self.model, x: self.handle, c, y: y.handle }),
    {
        Call::Pow { model: self.model, x: self.handle, c, y: y.handle }
    }

    /// The constraint that `self` is the largest value of the variables held
    /// by the backend array `vars`.
    pub fn max_call(&self, vars: Handle) -> (c: Call)
        ensures
            c == (Call::Max { model: self.model, x: self.handle, vars }),
    {
        Call::Max { model: self.model, x: self.handle, vars }
    }

    /// The constraint that `self` is the smallest value of the variables held
    /// by the backend array `vars`.
    pub fn min_call(&self, vars: Handle) -> (c: Call)
        ensures
            c == (Call::Min { model: self.model, x: self.handle, vars }),
    {
        Call::Min { model: self.model, x: self.handle, vars }
    }

    /// The constraint that `self` counts the variables of `vars` that take a
    /// value of `values` (both backend arrays).
    pub fn among_call(&self, vars: Handle, values: Handle) -> (c: Call)
        ensures
            c == (Call::Among { model: self.model, n: self.handle, vars, values }),
    {
        Call::Among { model: self.model, n: self.handle, vars, values }
    }

    /// The constraint `self % modulo = res`.  The backend takes a variable or
    /// a constant modulus; with a variable modulus the result is a variable.
    pub fn modulo_call(&self, modulo: IntOrIntVar, res: IntOrIntVar) -> (c: Call)
        requires
            modulo is IntVar ==> res is IntVar,
        ensures
            (modulo, res) matches (IntOrIntVar::IntVar(m), IntOrIntVar::IntVar(r)) ==> c == (Call::ModVar {
                model: self.model,
                x: self.handle,
                modulo: m.handle,
                res: r.handle,
            }),
            (modulo, res) matches (IntOrIntVar::Int(m), IntOrIntVar::Int(r)) ==> c == (Call::ModConstant {
                model: self.model,
                x: self.handle,
                modulo: m,
                res: r,
            }),
            (modulo, res) matches (IntOrIntVar::Int(m), IntOrIntVar::IntVar(r)) ==> c == (Call::ModConstantVar {
                model: self.model,
                x: self.handle,
                modulo: m,
                res: r.handle,
            }),
    {
        match (modulo, res) {
            (IntOrIntVar::IntVar(m), IntOrIntVar::IntVar(r)) => Call::ModVar {
                model: self.model,
                x: self.handle,
                modulo: m.handle,
                res: r.handle,
            },
            (IntOrIntVar::Int(m), IntOrIntVar::Int(r)) => Call::ModConstant {
                model: self.model,
                x: self.handle,
                modulo: m,
                res: r,
            },
            (IntOrIntVar::Int(m), IntOrIntVar::IntVar(r)) => Call::ModConstantVar {
                model: self.model,
                x: self.handle,
                modulo: m,
                res: r.handle,
            },
            (IntOrIntVar::IntVar(m), IntOrIntVar::Int(_)) => Call::ModVar {
                model: self.model,
                x: self.handle,
                modulo: m.handle,
                res: m.handle,
            },
        }
    }

    /// The all-different constraint over the variables held by the backend
    /// array `array`, built from `vars`; the model is that of the first
    /// variable.  An empty slice is refused: `requires` leaves it out.
    pub fn all_different_call(vars: &[IntVar], array: Handle) -> (c: Call)
        requires
            vars@.len() > 0,
        ensures
            c == (Call::AllDifferent { model: vars@[0].model, vars: array }),
    {
        Call::AllDifferent { model: vars[0].model, vars: array }
    }

    /// The all-different constraint that lets any number of the variables be 0.
    pub fn all_different_except_0_call(vars: &[IntVar], array: Handle) -> (c: Call)
        requires
            vars@.len() > 0,
        ensures
            c == (Call::AllDifferentExcept0 { model: vars@[0].model, vars: array }),
    {
        Call::AllDifferentExcept0 { model: vars[0].model, vars: array }
    }

    /// The constraint that all the variables take the same value.
    pub fn all_equal_call(vars: &[IntVar], array: Handle) -> (c: Call)
        requires
            vars@.len() > 0,
        ensures
            c == (Call::AllEqual { model: vars@[0].model, vars: array }),
    {
        Call::AllEqual { model: vars[0].model, vars: array }
    }

    /// The constraint that not all the variables take the same value.
    pub fn not_all_equal_call(vars: &[IntVar], array: Handle) -> (c: Call)
        requires
            vars@.len() > 0,
        ensures
            c == (Call::NotAllEqual { model: vars@[0].model, vars: array }),
    {
        Call::NotAllEqual { model: vars[0].model, vars: array }
    }

    /// The constraint that the variables take at least `n_values` distinct
    /// values; `ac` adds the filtering derived from all-different.
    pub fn at_least_n_value_call(vars: &[IntVar], array: Handle, n_values: &IntVar, ac: bool) -> (c: Call)
        requires
            vars@.len() > 0,
        ensures
            c == (Call::AtLeastNValues { model: vars@[0].model, vars: array, n_values: n_values.handle, ac }),
    {
        Call::AtLeastNValues { model: vars[0].model, vars: array, n_values: n_values.handle, ac }
    }

    /// The constraint that the variables take at most `n_values` distinct
    /// values; `strong` adds the filtering of the conjunction with inequalities.
    pub fn at_most_n_value_call(vars: &[IntVar], array: Handle, n_values: &IntVar, strong: bool) -> (c: Call)
        requires
            vars@.len() > 0,
        ensures
            c == (Call::AtMostNValues { model: vars@[0].model, vars: array, n_values: n_values.handle, strong }),
    {
        Call::AtMostNValues { model: vars[0].model, vars: array, n_values: n_values.handle, strong }
    }
}

/// The smaller of two integers.
pub open spec fn min2(a: int, b: int) -> int {
    if a <= b {
        a
    } else {
        b
    }
}

/// The larger of two integers.
pub open spec fn max2(a: int, b: int) -> int {
    if a >= b {
        a
    } else {
        b
    }
}

/// The smallest of four integers.
pub open spec fn min4(a: int, b: int, c: int, d: int) -> int {
    min2(min2(min2(a, b), c), d)
}

/// The largest of four integers.
pub open spec fn max4(a: int, b: int, c: int, d: int) -> int {
    max2(max2(max2(a, b), c), d)
}

/// Whether an integer is a value of `i32`.
pub open spec fn fits_i32(v: int) -> bool {
    i32::MIN <= v <= i32::MAX
}

/// The interval `[lb, ub]` of the values an integer variable may take,
/// as the bounds that the backend reports for it.
#[derive(Debug, Clone, Copy, PartialEq, Eq, Structural)]
pub struct Bounds {
    pub lb: i32,
    pub ub: i32,
}

impl Bounds {
    /// Whether `v` lies between the bounds.
    pub open spec fn contains(self, v: int) -> bool {
        self.lb <= v <= self.ub
    }

    /// Whether the interval holds at least one value.
    pub open spec fn is_nonempty(self) -> bool {
        self.lb <= self.ub
    }

    /// Whether zero lies outside the interval.
    pub open spec fn excludes_zero(self) -> bool {
        self.lb > 0 || self.ub < 0
    }

    /// Lower bound of `x + y`.
    pub open spec fn sum_lb(self, rhs: Bounds) -> int {
        self.lb + rhs.lb
    }

    /// Upper bound of `x + y`.
    pub open spec fn sum_ub(self, rhs: Bounds) -> int {
        self.ub + rhs.ub
    }

    /// Lower bound of `x - y`.
    pub open spec fn difference_lb(self, rhs: Bounds) -> int {
        self.lb - rhs.ub
    }

    /// Upper bound of `x - y`.
    pub open spec fn difference_ub(self, rhs: Bounds) -> int {
        self.ub - rhs.lb
    }

    /// Smallest product of two corners.
    pub open spec fn product_lb(self, rhs: Bounds) -> int {
        min4(self.lb * rhs.lb, self.lb * rhs.ub, self.ub * rhs.lb, self.ub * rhs.ub)
    }

    /// Largest product of two corners.
    pub open spec fn product_ub(self, rhs: Bounds) -> int {
        max4(self.lb * rhs.lb, self.lb * rhs.ub, self.ub * rhs.lb, self.ub * rhs.ub)
    }

    /// Whether all four corner products are values of `i32`.
    pub open spec fn product_defined(self, rhs: Bounds) -> bool {
        &&& fits_i32(self.lb * rhs.lb)
        &&& fits_i32(self.lb * rhs.ub)
        &&& fits_i32(self.ub * rhs.lb)
        &&& fits_i32(self.ub * rhs.ub)
    }

    /// Smallest quotient of two corners.
    pub open spec fn quotient_lb(self, rhs: Bounds) -> int {
        min4(
            trunc_div(self.lb as int, rhs.lb as int),
            trunc_div(self.lb as int, rhs.ub as int),
            trunc_div(self.ub as int, rhs.lb as int),
            trunc_div(self.ub as int, rhs.ub as int),
        )
    }

    /// Largest quotient of two corners.
    pub open spec fn quotient_ub(self, rhs: Bounds) -> int {
        max4(
            trunc_div(self.lb as int, rhs.lb as int),
            trunc_div(self.lb as int, rhs.ub as int),
            trunc_div(self.ub as int, rhs.lb as int),
            trunc_div(self.ub as int, rhs.ub as int),
        )
    }

    /// Whether the four corner divisions are defined on `i32`.
    pub open spec fn corner_divisions_defined(self, rhs: Bounds) -> bool {
        &&& division_defined(self.lb, rhs.lb)
        &&& division_defined(self.lb, rhs.ub)
        &&& division_defined(self.ub, rhs.lb)
        &&& division_defined(self.ub, rhs.ub)
    }

    /// Smallest remainder of two corners.
    pub open spec fn remainder_lb(self, rhs: Bounds) -> int {
        min4(
            trunc_rem(self.lb as int, rhs.lb as int),
            trunc_rem(self.lb as int, rhs.ub as int),
            trunc_rem(self.ub as int, rhs.lb as int),
            trunc_rem(self.ub as int, rhs.ub as int),
        )
    }

    /// Largest remainder of two corners.
    pub open spec fn remainder_ub(self, rhs: Bounds) -> int {
        max4(
            trunc_rem(self.lb as int, rhs.lb as int),
            trunc_rem(self.lb as int, rhs.ub as int),
            trunc_rem(self.ub as int, rhs.lb as int),
            trunc_rem(self.ub as int, rhs.ub as int),
        )
    }

    /// Domain of the variable that holds `x + y`: `[x.lb + y.lb, x.ub + y.ub]`.
    pub fn plus(self, rhs: Bounds) -> (r: Bounds)
        requires
            fits_i32(self.sum_lb(rhs)),
            fits_i32(self.sum_ub(rhs)),
        ensures
            r.lb == self.sum_lb(rhs),
            r.ub == self.sum_ub(rhs),
    {
        Bounds { lb: self.lb + rhs.lb, ub: self.ub + rhs.ub }
    }

    /// Domain of the variable that holds `x - y`: `[x.lb - y.ub, x.ub - y.lb]`.
    pub fn minus(self, rhs: Bounds) -> (r: Bounds)
        requires
            fits_i32(self.difference_lb(rhs)),
            fits_i32(self.difference_ub(rhs)),
        ensures
            r.lb == self.difference_lb(rhs),
            r.ub == self.difference_ub(rhs),
    {
        Bounds { lb: self.lb - rhs.ub, ub: self.ub - rhs.lb }
    }

    /// Domain of the variable that holds `x * y`: the smallest and largest of
    /// the four corner products.
    pub fn times(self, rhs: Bounds) -> (r: Bounds)
        requires
            self.product_defined(rhs),
        ensures
            r.lb == self.product_lb(rhs),
            r.ub == self.product_ub(rhs),
    {
        let a = self.lb * rhs.lb;
        let b = self.lb * rhs.ub;
        let c = self.ub * rhs.lb;
        let d = self.ub * rhs.ub;
        Bounds { lb: min_of_four(a, b, c, d), ub: max_of_four(a, b, c, d) }
    }

    /// Domain of the variable that holds `x / y`: the smallest and largest of
    /// the four corner quotients, each rounded toward zero.
    pub fn divided_by(self, rhs: Bounds) -> (r: Bounds)
        requires
            self.corner_divisions_defined(rhs),
        ensures
            r.lb == self.quotient_lb(rhs),
            r.ub == self.quotient_ub(rhs),
    {
        let a = div_i32(self.lb, rhs.lb);
        let b = div_i32(self.lb, rhs.ub);
        let c = div_i32(self.ub, rhs.lb);
        let d = div_i32(self.ub, rhs.ub);
        Bounds { lb: min_of_four(a, b, c, d), ub: max_of_four(a, b, c, d) }
    }

    /// Domain of the variable that holds `x / c` for a constant `c`: the
    /// smaller and larger of `x.lb / c` and `x.ub / c`.
    pub fn divided_by_constant(self, c: i32) -> (r: Bounds)
        requires
            division_defined(self.lb, c),
            division_defined(self.ub, c),
        ensures
            r.lb == min2(trunc_div(self.lb as int, c as int), trunc_div(self.ub as int, c as int)),
            r.ub == max2(trunc_div(self.lb as int, c as int), trunc_div(self.ub as int, c as int)),
    {
        let a = div_i32(self.lb, c);
        let b = div_i32(self.ub, c);
        Bounds { lb: min_of_two(a, b), ub: max_of_two(a, b) }
    }

    /// Domain of the variable that holds `x % y`: the smallest and largest of
    /// the four corner remainders.
    pub fn remainder(self, rhs: Bounds) -> (r: Bounds)
        requires
            self.corner_divisions_defined(rhs),
        ensures
            r.lb == self.remainder_lb(rhs),
            r.ub == self.remainder_ub(rhs),
    {
        let a = rem_i32(self.lb, rhs.lb);
        let b = rem_i32(self.lb, rhs.ub);
        let c = rem_i32(self.ub, rhs.lb);
        let d = rem_i32(self.ub, rhs.ub);
        Bounds { lb: min_of_four(a, b, c, d), ub: max_of_four(a, b, c, d) }
    }

    /// Domain of the variable that holds `x % c` for a constant `c`: the
    /// smaller and larger of `x.lb % c` and `x.ub % c`.
    pub fn remainder_by_constant(self, c: i32) -> (r: Bounds)
        requires
            division_defined(self.lb, c),
            division_defined(self.ub, c),
        ensures
            r.lb == min2(trunc_rem(self.lb as int, c as int), trunc_rem(self.ub as int, c as int)),
            r.ub == max2(trunc_rem(self.lb as int, c as int), trunc_rem(self.ub as int, c as int)),
    {
        let a = rem_i32(self.lb, c);
        let b = rem_i32(self.ub, c);
        Bounds { lb: min_of_two(a, b), ub: max_of_two(a, b) }
    }
}


proof fn lemma_product_between(a: int, l: int, u: int, b: int)
    by (nonlinear_arith)
    requires
        l <= a <= u,
    ensures
        min2(l * b, u * b) <= a * b <= max2(l * b, u * b),
{
}

/// Every sum of a value of `x` and a value of `y` lies in the domain that
/// `plus` gives the variable holding `x + y`, and both of its ends are such sums.
pub proof fn lemma_sum_bounds_exact(x: Bounds, y: Bounds, a: int, b: int)
    requires
        x.contains(a),
        y.contains(b),
    ensures
        x.sum_lb(y) <= a + b <= x.sum_ub(y),
        x.contains(x.lb as int) && y.contains(y.lb as int),
        x.contains(x.ub as int) && y.contains(y.ub as int),
{
}

/// Every difference of a value of `x` and a value of `y` lies in the domain
/// that `minus` gives the variable holding `x - y`; its ends are the
/// differences `x.lb - y.ub` and `x.ub - y.lb`.
pub proof fn lemma_difference_bounds_exact(x: Bounds, y: Bounds, a: int, b: int)
    requires
        x.contains(a),
        y.contains(b),
    ensures
        x.difference_lb(y) <= a - b <= x.difference_ub(y),
        x.contains(x.lb as int) && y.contains(y.ub as int),
        x.contains(x.ub as int) && y.contains(y.lb as int),
{
}

/// Both ends of the domain that `plus` gives are sums of a value of `x` and a
/// value of `y`: with `lemma_sum_bounds_exact`, the domain is exactly the
/// interval of all such sums.
pub proof fn lemma_sum_bounds_attained(x: Bounds, y: Bounds)
    requires
        x.is_nonempty(),
        y.is_nonempty(),
    ensures
        exists|a: int, b: int| x.contains(a) && y.contains(b) && #[trigger] (a + b) == x.sum_lb(y),
        exists|a: int, b: int| x.contains(a) && y.contains(b) && #[trigger] (a + b) == x.sum_ub(y),
{
    let (xl, xu, yl, yu) = (x.lb as int, x.ub as int, y.lb as int, y.ub as int);
    assert(x.contains(xl) && y.contains(yl) && xl + yl == x.sum_lb(y));
    assert(x.contains(xu) && y.contains(yu) && xu + yu == x.sum_ub(y));
}

/// Both ends of the domain that `minus` gives are differences of a value of
/// `x` and a value of `y`: with `lemma_difference_bounds_exact`, the domain is
/// exactly the interval of all such differences.
pub proof fn lemma_difference_bounds_attained(x: Bounds, y: Bounds)
    requires
        x.is_nonempty(),
        y.is_nonempty(),
    ensures
        exists|a: int, b: int| x.contains(a) && y.contains(b) && #[trigger] (a - b) == x.difference_lb(y),
        exists|a: int, b: int| x.contains(a) && y.contains(b) && #[trigger] (a - b) == x.difference_ub(y),
{
    let (xl, xu, yl, yu) = (x.lb as int, x.ub as int, y.lb as int, y.ub as int);
    assert(x.contains(xl) && y.contains(yu) && xl - yu == x.difference_lb(y));
    assert(x.contains(xu) && y.contains(yl) && xu - yl == x.difference_ub(y));
}

/// The domain that `remainder` gives the variable holding `x % y` is the
/// smallest interval holding the four corner remainders (each rounded toward
/// zero): every corner remainder lies in it, and each of its ends is one of
/// them.
pub proof fn lemma_remainder_bounds_cover_corners(x: Bounds, y: Bounds)
    ensures
        ({
            let (lo, hi) = (x.remainder_lb(y), x.remainder_ub(y));
            let r1 = trunc_rem(x.lb as int, y.lb as int);
            let r2 = trunc_rem(x.lb as int, y.ub as int);
            let r3 = trunc_rem(x.ub as int, y.lb as int);
            let r4 = trunc_rem(x.ub as int, y.ub as int);
            &&& lo <= r1 <= hi
            &&& lo <= r2 <= hi
            &&& lo <= r3 <= hi
            &&& lo <= r4 <= hi
            &&& (lo == r1 || lo == r2 || lo == r3 || lo == r4)
            &&& (hi == r1 || hi == r2 || hi == r3 || hi == r4)
        }),
{
}

/// Every product of a value of `x` and a value of `y` lies in the domain that
/// `times` gives the variable holding `x * y`.
pub proof fn lemma_product_bounds_sound(x: Bounds, y: Bounds, a: int, b: int)
    requires
        x.contains(a),
        y.contains(b),
    ensures
        x.product_lb(y) <= a * b <= x.product_ub(y),
{
    let (xl, xu, yl, yu) = (x.lb as int, x.ub as int, y.lb as int, y.ub as int);
    lemma_product_between(a, xl, xu, b);
    lemma_product_between(b, yl, yu, xl);
    lemma_product_between(b, yl, yu, xu);
    assert(b * xl == xl * b && b * xu == xu * b && yl * xl == xl * yl && yu * xl == xl * yu
        && yl * xu == xu * yl && yu * xu == xu * yu && b * a == a * b) by (nonlinear_arith);
}

/// Both ends of the domain that `times` gives are products of a value of `x`
/// and a value of `y`: the domain is the smallest interval that holds them all.
pub proof fn lemma_product_bounds_attained(x: Bounds, y: Bounds)
    requires
        x.is_nonempty(),
        y.is_nonempty(),
    ensures
        exists|a: int, b: int| x.contains(a) && y.contains(b) && a * b == x.product_lb(y),
        exists|a: int, b: int| x.contains(a) && y.contains(b) && a * b == x.product_ub(y),
{
    let (xl, xu, yl, yu) = (x.lb as int, x.ub as int, y.lb as int, y.ub as int);
    assert(x.contains(xl) && x.contains(xu) && y.contains(yl) && y.contains(yu));
    let lo = x.product_lb(y);
    if lo == xl * yl {
        assert(x.contains(xl) && y.contains(yl) && xl * yl == lo);
    } else if lo == xl * yu {
        assert(x.contains(xl) && y.contains(yu) && xl * yu == lo);
    } else if lo == xu * yl {
        assert(x.contains(xu) && y.contains(yl) && xu * yl == lo);
    } else {
        assert(x.contains(xu) && y.contains(yu) && xu * yu == lo);
    }
    let hi = x.product_ub(y);
    if hi == xl * yl {
        assert(x.contains(xl) && y.contains(yl) && xl * yl == hi);
    } else if hi == xl * yu {
        assert(x.contains(xl) && y.contains(yu) && xl * yu == hi);
    } else if hi == xu * yl {
        assert(x.contains(xu) && y.contains(yl) && xu * yl == hi);
    } else {
        assert(x.contains(xu) && y.contains(yu) && xu * yu == hi);
    }
}

proof fn lemma_quotient_between_dividends(a: int, l: int, u: int, b: int)
    requires
        l <= a <= u,
        b != 0,
    ensures
        min2(trunc_div(l, b), trunc_div(u, b)) <= trunc_div(a, b) <= max2(
            trunc_div(l, b),
            trunc_div(u, b),
        ),
{
    lemma_trunc_div_monotone_in_dividend(l, a, b);
    lemma_trunc_div_monotone_in_dividend(a, u, b);
}

proof fn lemma_quotient_between_divisors(a: int, b: int, l: int, u: int)
    requires
        l <= b <= u,
        l > 0 || u < 0,
    ensures
        min2(trunc_div(a, l), trunc_div(a, u)) <= trunc_div(a, b) <= max2(
            trunc_div(a, l),
            trunc_div(a, u),
        ),
{
    lemma_trunc_div_monotone_in_divisor(a, l, b);
    lemma_trunc_div_monotone_in_divisor(a, b, u);
}

/// When zero is not a value of `y`, every quotient (rounded toward zero) of a
/// value of `x` by a value of `y` lies in the domain that `divided_by` gives
/// the variable holding `x / y`.
pub proof fn lemma_quotient_bounds_sound(x: Bounds, y: Bounds, a: int, b: int)
    requires
        x.contains(a),
        y.contains(b),
        y.excludes_zero(),
    ensures
        x.quotient_lb(y) <= trunc_div(a, b) <= x.quotient_ub(y),
{
    let (xl, xu, yl, yu) = (x.lb as int, x.ub as int, y.lb as int, y.ub as int);
    lemma_quotient_between_dividends(a, xl, xu, b);
    lemma_quotient_between_divisors(xl, b, yl, yu);
    lemma_quotient_between_divisors(xu, b, yl, yu);
}

/// Both ends of the domain that `divided_by` gives are quotients of a value
/// of `x` by a value of `y`: with `lemma_quotient_bounds_sound`, the domain is
/// the smallest interval holding every quotient when zero is not in `y`.
pub proof fn lemma_quotient_bounds_attained(x: Bounds, y: Bounds)
    requires
        x.is_nonempty(),
        y.is_nonempty(),
    ensures
        exists|a: int, b: int| x.contains(a) && y.contains(b) && trunc_div(a, b) == x.quotient_lb(y),
        exists|a: int, b: int| x.contains(a) && y.contains(b) && trunc_div(a, b) == x.quotient_ub(y),
{
    let (xl, xu, yl, yu) = (x.lb as int, x.ub as int, y.lb as int, y.ub as int);
    assert(x.contains(xl) && x.contains(xu) && y.contains(yl) && y.contains(yu));
    let lo = x.quotient_lb(y);
    if lo == trunc_div(xl, yl) {
        assert(x.contains(xl) && y.contains(yl) && trunc_div(xl, yl) == lo);
    } else if lo == trunc_div(xl, yu) {
        assert(x.contains(xl) && y.contains(yu) && trunc_div(xl, yu) == lo);
    } else if lo == trunc_div(xu, yl) {
        assert(x.contains(xu) && y.contains(yl) && trunc_div(xu, yl) == lo);
    } else {
        assert(x.contains(xu) && y.contains(yu) && trunc_div(xu, yu) == lo);
    }
    let hi = x.quotient_ub(y);
    if hi == trunc_div(xl, yl) {
        assert(x.contains(xl) && y.contains(yl) && trunc_div(xl, yl) == hi);
    } else if hi == trunc_div(xl, yu) {
        assert(x.contains(xl) && y.contains(yu) && trunc_div(xl, yu) == hi);
    } else if hi == trunc_div(xu, yl) {
        assert(x.contains(xu) && y.contains(yl) && trunc_div(xu, yl) == hi);
    } else {
        assert(x.contains(xu) && y.contains(yu) && trunc_div(xu, yu) == hi);
    }
}

/// Every quotient of a value of `x` by a non-zero constant `c` lies in the
/// domain that `divided_by_constant` gives the variable holding `x / c`.
pub proof fn lemma_quotient_by_constant_sound(x: Bounds, c: int, a: int)
    requires
        x.contains(a),
        c != 0,
    ensures
        min2(trunc_div(x.lb as int, c), trunc_div(x.ub as int, c)) <= trunc_div(a, c) <= max2(
            trunc_div(x.lb as int, c),
            trunc_div(x.ub as int, c),
        ),
{
    lemma_quotient_between_dividends(a, x.lb as int, x.ub as int, c);
}

fn min_of_two(a: i32, b: i32) -> (m: i32)
    ensures
        m == min2(a as int, b as int),
{
    if a <= b {
        a
    } else {
        b
    }
}

fn max_of_two(a: i32, b: i32) -> (m: i32)
    ensures
        m == max2(a as int, b as int),
{
    if a >= b {
        a
    } else {
        b
    }
}

fn min_of_four(a: i32, b: i32, c: i32, d: i32) -> (m: i32)
    ensures
        m == min4(a as int, b as int, c as int, d as int),
{
    min_of_two(min_of_two(min_of_two(a, b), c), d)
}

fn max_of_four(a: i32, b: i32, c: i32, d: i32) -> (m: i32)
    ensures
        m == max4(a as int, b as int, c as int, d as int),
{
    max_of_two(max_of_two(max_of_two(a, b), c), d)
}

} // verus!
