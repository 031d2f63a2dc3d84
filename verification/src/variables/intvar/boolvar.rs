use vstd::prelude::*;

use crate::backend::{optional_name_ok, Call, Handle};
use crate::constraint::Constraint;
use crate::variables::intvar::IntVar;
use crate::SolverError;

verus! {

/// A boolean decision variable (domain 0/1) of a model: an integer variable
/// whose domain is `[0, 1]`.
#[derive(Debug, Clone, Copy, PartialEq, Eq)]
pub struct BoolVar {
    pub int_var: IntVar,
}

/// The integer that stands for a boolean in the backend: `1` for true, `0`
/// for false.
pub open spec fn bool_code(b: bool) -> i32 {
    if b {
        1
    } else {
        0
    }
}

impl BoolVar {
    /// The boolean variable at `handle`, in `model`.
    pub fn from_raw_handle(handle: Handle, model: Handle) -> (b: BoolVar)
        ensures
            b.int_var.handle == handle,
            b.int_var.model == model,
    {
        BoolVar { int_var: IntVar { handle, model } }
    }

    /// The call that creates a boolean variable of `model`: fixed to `value`
    /// when one is given, free otherwise, and named when a name is given.
    /// A name with a NUL byte cannot be handed to the backend: `requires`
    /// leaves it out.
    pub fn new_call(model: Handle, value: Option<bool>, name: Option<&str>) -> (c: Call)
        requires
            optional_name_ok(name),
        ensures
            (value, name) matches (None, None) ==> c == (Call::BoolVar { model }),
            (value, name) matches (Some(v), None) ==> c == (Call::BoolVarFixed { model, value: bool_code(v) }),
            (value, name) matches (None, Some(n)) ==> (c matches Call::BoolVarNamed { model: m, name: s }
                && m == model && s@ == n@),
            (value, name) matches (Some(v), Some(n)) ==> (c matches Call::BoolVarFixedNamed {
                model: m,
                name: s,
                value: k,
            } && m == model && s@ == n@ && k == bool_code(v)),
    {
        match name {
            Some(n) => match value {
                Some(v) => Call::BoolVarFixedNamed { model, name: n.to_owned(), value: code_of(v) },
                None => Call::BoolVarNamed { model, name: n.to_owned() },
            },
            None => match value {
                Some(v) => Call::BoolVarFixed { model, value: code_of(v) },
                None => Call::BoolVar { model },
            },
        }
    }

    /// The boolean variable that the backend created at `addr` for `model`
    /// (a null address is a failure to create it).
    pub fn created(addr: usize, model: Handle) -> (b: BoolVar)
        requires
            addr != 0,
        ensures
            b.int_var.handle.address() == addr,
            b.int_var.model == model,
    {
        BoolVar::from_raw_handle(Handle::new(addr), model)
    }

    /// The view `!self`.
    pub fn not_view_call(&self) -> (c: Call)
        ensures
            c == (Call::NotView { var: self.int_var.handle }),
    {
        Call::NotView { var: self.int_var.handle }
    }

    /// An integer variable is a boolean variable exactly when its domain is
    /// `[0, 1]`; otherwise the conversion fails with `BoolVarConversionError`.
    pub fn try_from_int_var(int_var: IntVar, lb: i32, ub: i32) -> (r: Result<BoolVar, SolverError>)
        ensures
            (lb == 0 && ub == 1) ==> r == Ok::<BoolVar, SolverError>(BoolVar { int_var }),
            !(lb == 0 && ub == 1) ==> r == Err::<BoolVar, SolverError>(SolverError::BoolVarConversionError),
    {
        if lb == 0 && ub == 1 {
            Ok(BoolVar { int_var })
        } else {
            Err(SolverError::BoolVarConversionError)
        }
    }

    /// The call posting `self => then_constraint` and `!self => else_constraint`.
    pub fn if_then_else_call(&self, then_constraint: &Constraint, else_constraint: &Constraint) -> (c: Call)
        ensures
            c == (Call::IfThenElseBool {
                model: self.int_var.model,
                cond: self.int_var.handle,
                then_c: then_constraint.handle,
                else_c: else_constraint.handle,
            }),
    {
        Call::IfThenElseBool {
            model: self.int_var.model,
            cond: self.int_var.handle,
            then_c: then_constraint.handle,
            else_c: else_constraint.handle,
        }
    }

    /// The call posting `self => then_constraint`.
    pub fn if_then_call(&self, then_constraint: &Constraint) -> (c: Call)
        ensures
            c == (Call::IfThenBool {
                model: self.int_var.model,
                cond: self.int_var.handle,
                then_c: then_constraint.handle,
            }),
    {
        Call::IfThenBool { model: self.int_var.model, cond: self.int_var.handle, then_c: then_constraint.handle }
    }

    /// The call posting `self <=> constraint`.
    pub fn if_only_if_call(&self, constraint: &Constraint) -> (c: Call)
        ensures
            c == (Call::Reification {
                model: self.int_var.model,
                boolvar: self.int_var.handle,
                constraint: constraint.handle,
            }),
    {
        Call::Reification { model: self.int_var.model, boolvar: self.int_var.handle, constraint: constraint.handle }
    }

    /// The conjunction of the boolean variables held by the backend array
    /// `array`, built from `vars`; the model is that of the first variable.
    /// An empty slice has no model: `requires` leaves it out.
    pub fn and_call(vars: &[BoolVar], array: Handle) -> (c: Call)
        requires
            vars@.len() > 0,
        ensures
            c == (Call::AndBoolVars { model: vars@[0].int_var.model, boolvars: array }),
    {
        Call::AndBoolVars { model: vars[0].int_var.model, boolvars: array }
    }

    /// The disjunction of the boolean variables held by the backend array
    /// `array`, built from `vars`; the model is that of the first variable.
    pub fn or_call(vars: &[BoolVar], array: Handle) -> (c: Call)
        requires
            vars@.len() > 0,
        ensures
            c == (Call::OrBoolVars { model: vars@[0].int_var.model, boolvars: array }),
    {
        Call::OrBoolVars { model: vars[0].int_var.model, boolvars: array }
    }

    /// The constant operand of `b & v`, `b | v` (and of `v & b`, `v | b`): a
    /// nameless boolean variable of the model of `self`, fixed to `value`.
    pub fn constant_operand_call(&self, value: bool) -> (c: Call)
        ensures
            c == (Call::BoolVarFixed { model: self.int_var.model, value: bool_code(value) }),
    {
        BoolVar::new_call(self.int_var.model, Some(value), None)
    }
}

fn code_of(b: bool) -> (k: i32)
    ensures
        k == bool_code(b),
{
    if b {
        1
    } else {
        0
    }
}

impl From<BoolVar> for IntVar {
    fn from(bool_var: BoolVar) -> (v: IntVar) {
        bool_var.int_var
    }
}

impl vstd::std_specs::convert::FromSpecImpl<BoolVar> for IntVar {
    open spec fn obeys_from_spec() -> bool {
        true
    }

    open spec fn from_spec(bool_var: BoolVar) -> IntVar {
        bool_var.int_var
    }
}

} // verus!
