use vstd::prelude::*;

use crate::backend::{Call, Handle, Operator};
use crate::variables::intvar::boolvar::BoolVar;
use crate::SolverError;

verus! {

/// Comparison operators for arithmetic constraints.
#[derive(Debug, Clone, Copy, PartialEq, Eq, Structural)]
pub enum EqualityOperator {
    Eq,
    Neq,
    Lt,
    Leq,
    Gt,
    Geq,
}

/// Arithmetic operators used in constraints (addition, subtraction, multiplication, division).
#[derive(Debug, Clone, Copy, PartialEq, Eq, Structural)]
pub enum ArithmeticOperator {
    Sum,
    Sub,
    Mul,
    Div,
}

/// The bytes of a C string: the characters of `s` followed by one NUL byte.
pub open spec fn c_string_bytes(s: Seq<u8>) -> Seq<u8> {
    s.push(0u8)
}

impl EqualityOperator {
    /// The symbol of the operator, as the backend spells it.
    pub open spec fn symbol(self) -> Seq<u8> {
        match self {
            EqualityOperator::Eq => seq![61u8],
            EqualityOperator::Neq => seq![33u8, 61u8],
            EqualityOperator::Lt => seq![60u8],
            EqualityOperator::Leq => seq![60u8, 61u8],
            EqualityOperator::Gt => seq![62u8],
            EqualityOperator::Geq => seq![62u8, 61u8],
        }
    }

    /// The symbol of the operator as a NUL-terminated C string
    /// (`=`, `!=`, `<`, `<=`, `>`, `>=`).
    pub fn to_cstr(&self) -> (bytes: Vec<u8>)
        ensures
            bytes@ == c_string_bytes(self.symbol()),
    {
        match self {
            EqualityOperator::Eq => vec![61u8, 0u8],
            EqualityOperator::Neq => vec![33u8, 61u8, 0u8],
            EqualityOperator::Lt => vec![60u8, 0u8],
            EqualityOperator::Leq => vec![60u8, 61u8, 0u8],
            EqualityOperator::Gt => vec![62u8, 0u8],
            EqualityOperator::Geq => vec![62u8, 61u8, 0u8],
        }
    }
}


impl EqualityOperator {
    /// Whether the relation holds between `a` and `b`.
    pub open spec fn holds(self, a: int, b: int) -> bool {
        match self {
            EqualityOperator::Eq => a == b,
            EqualityOperator::Neq => a != b,
            EqualityOperator::Lt => a < b,
            EqualityOperator::Leq => a <= b,
            EqualityOperator::Gt => a > b,
            EqualityOperator::Geq => a >= b,
        }
    }
}

impl ArithmeticOperator {
    /// The symbol of the operator, as the backend spells it.
    pub open spec fn symbol(self) -> Seq<u8> {
        match self {
            ArithmeticOperator::Sum => seq![43u8],
            ArithmeticOperator::Sub => seq![45u8],
            ArithmeticOperator::Mul => seq![42u8],
            ArithmeticOperator::Div => seq![47u8],
        }
    }

    /// The symbol of the operator as a NUL-terminated C string (`+`, `-`, `*`, `/`).
    pub fn to_cstr(&self) -> (bytes: Vec<u8>)
        ensures
            bytes@ == c_string_bytes(self.symbol()),
    {
        match self {
            ArithmeticOperator::Sum => vec![43u8, 0u8],
            ArithmeticOperator::Sub => vec![45u8, 0u8],
            ArithmeticOperator::Mul => vec![42u8, 0u8],
            ArithmeticOperator::Div => vec![47u8, 0u8],
        }
    }
}

impl Operator {
    /// The symbol of the operator, as the backend spells it.
    pub open spec fn symbol(self) -> Seq<u8> {
        match self {
            Operator::Relation(op) => op.symbol(),
            Operator::Arithmetic(op) => op.symbol(),
        }
    }

    /// The symbol of the operator as a NUL-terminated C string.
    pub fn to_cstr(&self) -> (bytes: Vec<u8>)
        ensures
            bytes@ == c_string_bytes(self.symbol()),
    {
        match self {
            Operator::Relation(op) => op.to_cstr(),
            Operator::Arithmetic(op) => op.to_cstr(),
        }
    }
}

/// Whether `bytes` is a C string: a last byte NUL and no NUL before it.
pub open spec fn is_c_string(bytes: Seq<u8>) -> bool {
    &&& bytes.len() > 0
    &&& bytes.last() == 0u8
    &&& forall|i: int| 0 <= i < bytes.len() - 1 ==> bytes[i] != 0u8
}

/// The symbols sent to the backend are C strings, and no two operators share
/// one, so the backend can tell every operator from every other.
pub proof fn lemma_operator_symbols_distinct(a: Operator, b: Operator)
    ensures
        is_c_string(c_string_bytes(a.symbol())),
        a != b ==> a.symbol() != b.symbol(),
{
    let s = a.symbol();
    assert(c_string_bytes(s).last() == 0u8);
    if a != b {
        let t = b.symbol();
        if s == t {
            assert(s.len() == t.len());
            assert(s[0] == t[0]);
            if s.len() > 1 {
                assert(s[1] == t[1]);
            }
            assert(false);
        }
    }
}

/// The operational status of a constraint.
#[allow(non_camel_case_types)]
#[derive(Debug, Clone, Copy, PartialEq, Eq, Structural)]
pub enum ConstraintStatus {
    /// Constraint is not yet posted or reified.
    FREE,
    /// Constraint has been posted to the solver.
    POSTED,
    /// Constraint has been converted to a boolean variable.
    REIFIED,
}

impl ConstraintStatus {
    /// The code by which the backend reports the status.
    pub open spec fn code(self) -> i32 {
        match self {
            ConstraintStatus::FREE => 0,
            ConstraintStatus::POSTED => 1,
            ConstraintStatus::REIFIED => 2,
        }
    }

    /// The status that the backend reports by `code`, if any.
    pub open spec fn from_code(code: i32) -> Result<ConstraintStatus, ()> {
        if code == 0 {
            Ok(ConstraintStatus::FREE)
        } else if code == 1 {
            Ok(ConstraintStatus::POSTED)
        } else if code == 2 {
            Ok(ConstraintStatus::REIFIED)
        } else {
            Err(())
        }
    }
}

impl TryFrom<i32> for ConstraintStatus {
    type Error = ();

    fn try_from(value: i32) -> (r: Result<Self, Self::Error>) {
        match value {
            0 => Ok(ConstraintStatus::FREE),
            1 => Ok(ConstraintStatus::POSTED),
            2 => Ok(ConstraintStatus::REIFIED),
            _ => Err(()),
        }
    }
}

impl vstd::std_specs::convert::TryFromSpecImpl<i32> for ConstraintStatus {
    open spec fn obeys_try_from_spec() -> bool {
        true
    }

    open spec fn try_from_spec(v: i32) -> Result<Self, ()> {
        ConstraintStatus::from_code(v)
    }
}

/// Decoding a status code gives back the status that it encodes, and the
/// only codes that decode are the codes of statuses.
pub proof fn lemma_status_code_round_trip(s: ConstraintStatus, code: i32)
    ensures
        ConstraintStatus::from_code(s.code()) == Ok::<ConstraintStatus, ()>(s),
        ConstraintStatus::from_code(code) matches Ok(t) ==> t.code() == code,
        (0 <= code <= 2) <==> ConstraintStatus::from_code(code) is Ok,
{
}

/// Represents the satisfaction state of a constraint.
///
/// This enum indicates whether a constraint is satisfied, not satisfied,
/// or if it is not yet possible to determine its satisfaction state.
#[derive(Debug, Clone, Copy, PartialEq, Eq, Structural)]
pub enum ESat {
    /// The constraint is satisfied.
    True,
    /// The constraint is not satisfied.
    False,
    /// The satisfaction state cannot be determined yet.
    Undefined,
}

impl ESat {
    /// The satisfaction state that the backend reports by `code`:
    /// `0` is false, `1` is true, any other code is undefined.
    pub fn from_code(code: i32) -> (e: ESat)
        ensures
            code == 0 ==> e == ESat::False,
            code == 1 ==> e == ESat::True,
            code != 0 && code != 1 ==> e == ESat::Undefined,
    {
        match code {
            0 => ESat::False,
            1 => ESat::True,
            _ => ESat::Undefined,
        }
    }
}

/// A constraint attached to a model, as the pair of backend handles of the
/// constraint and of its model.
#[derive(Debug, Clone, Copy, PartialEq, Eq)]
pub struct Constraint {
    pub handle: Handle,
    pub model: Handle,
}

impl Constraint {
    /// The constraint that the backend returned at `addr` for `model`.  The
    /// backend returns null when it refuses the parameters; that case is left
    /// out by `requires` (it is a failure of the caller's request).
    pub fn created(addr: usize, model: Handle) -> (c: Constraint)
        requires
            addr != 0,
        ensures
            c.handle.address() == addr,
            c.model == model,
    {
        Constraint { handle: Handle::new(addr), model }
    }

    /// Posting: a constraint can be posted only while it is free; the backend
    /// is then asked to post it.  Otherwise nothing is sent and the error is
    /// `NotFreeConstraint`.
    pub fn post_call(&self, status: ConstraintStatus) -> (r: Result<Call, SolverError>)
        ensures
            status == ConstraintStatus::FREE ==> r == Ok::<Call, SolverError>(
                Call::Post { constraint: self.handle },
            ),
            status != ConstraintStatus::FREE ==> r == Err::<Call, SolverError>(
                SolverError::NotFreeConstraint,
            ),
    {
        match status {
            ConstraintStatus::FREE => Ok(Call::Post { constraint: self.handle }),
            _ => Err(SolverError::NotFreeConstraint),
        }
    }

    /// The call that reads the status of the constraint.
    pub fn status_call(&self) -> (c: Call)
        ensures
            c == (Call::Status { constraint: self.handle }),
    {
        Call::Status { constraint: self.handle }
    }

    /// The status that the backend reported by `code`.  An unknown code is a
    /// fault of the backend, on which the status query fails: `requires`
    /// leaves it out.
    pub fn status_from_code(code: i32) -> (s: ConstraintStatus)
        requires
            0 <= code <= 2,
        ensures
            s.code() == code,
            ConstraintStatus::from_code(code) == Ok::<ConstraintStatus, ()>(s),
    {
        match ConstraintStatus::try_from(code) {
            Ok(s) => s,
            Err(_) => ConstraintStatus::FREE,
        }
    }

    /// The call that reifies the constraint into a boolean variable.
    pub fn reify_call(&self) -> (c: Call)
        ensures
            c == (Call::Reify { constraint: self.handle }),
    {
        Call::Reify { constraint: self.handle }
    }

    /// The boolean variable that reifies the constraint, at the address that
    /// the backend returned (a null address is a failure to reify).
    pub fn reified(&self, addr: usize) -> (b: BoolVar)
        requires
            addr != 0,
        ensures
            b.int_var.handle.address() == addr,
            b.int_var.model == self.model,
    {
        BoolVar::from_raw_handle(Handle::new(addr), self.model)
    }

    /// The call that reifies the constraint with a given boolean variable.
    pub fn reify_with_call(&self, boolvar: &BoolVar) -> (c: Call)
        ensures
            c == (Call::ReifyWith { constraint: self.handle, boolvar: boolvar.int_var.handle }),
    {
        Call::ReifyWith { constraint: self.handle, boolvar: boolvar.int_var.handle }
    }

    /// The call stating that the constraint implies the boolean variable.
    pub fn implies_call(&self, boolvar: &BoolVar) -> (c: Call)
        ensures
            c == (Call::Implies { constraint: self.handle, boolvar: boolvar.int_var.handle }),
    {
        Call::Implies { constraint: self.handle, boolvar: boolvar.int_var.handle }
    }

    /// The call stating that the boolean variable implies the constraint.
    pub fn implied_by_call(&self, boolvar: &BoolVar) -> (c: Call)
        ensures
            c == (Call::ImpliedBy { constraint: self.handle, boolvar: boolvar.int_var.handle }),
    {
        Call::ImpliedBy { constraint: self.handle, boolvar: boolvar.int_var.handle }
    }

    /// The call that asks whether the constraint is satisfied; its answer is
    /// read by `ESat::from_code`.
    pub fn is_satisfied_call(&self) -> (c: Call)
        ensures
            c == (Call::IsSatisfied { constraint: self.handle }),
    {
        Call::IsSatisfied { constraint: self.handle }
    }

    /// The call posting `self => then_constraint` and `!self => else_constraint`,
    /// in the model of `self`.
    pub fn if_then_else_call(&self, then_constraint: &Constraint, else_constraint: &Constraint) -> (c: Call)
        ensures
            c == (Call::IfThenElse {
                model: self.model,
                cond: self.handle,
                then_c: then_constraint.handle,
                else_c: else_constraint.handle,
            }),
    {
        Call::IfThenElse {
            model: self.model,
            cond: self.handle,
            then_c: then_constraint.handle,
            else_c: else_constraint.handle,
        }
    }

    /// The call posting `self => then_constraint`, in the model of `self`.
    pub fn if_then_call(&self, then_constraint: &Constraint) -> (c: Call)
        ensures
            c == (Call::IfThen { model: self.model, cond: self.handle, then_c: then_constraint.handle }),
    {
        Call::IfThen { model: self.model, cond: self.handle, then_c: then_constraint.handle }
    }

    /// The conjunction of the constraints held by the backend array `array`,
    /// built from `constraints`; the model is that of the first constraint.
    /// An empty slice has no model: `requires` leaves it out.
    pub fn and_call(constraints: &[Constraint], array: Handle) -> (c: Call)
        requires
            constraints@.len() > 0,
        ensures
            c == (Call::AndConstraints { model: constraints@[0].model, constraints: array }),
    {
        Call::AndConstraints { model: constraints[0].model, constraints: array }
    }

    /// The disjunction of the constraints held by the backend array `array`,
    /// built from `constraints`; the model is that of the first constraint.
    pub fn or_call(constraints: &[Constraint], array: Handle) -> (c: Call)
        requires
            constraints@.len() > 0,
        ensures
            c == (Call::OrConstraints { model: constraints@[0].model, constraints: array }),
    {
        Call::OrConstraints { model: constraints[0].model, constraints: array }
    }

    /// The call posting `self <=> constraint`, in the model of `self`.
    pub fn if_only_if_call(&self, constraint: &Constraint) -> (c: Call)
        ensures
            c == (Call::IfOnlyIf { model: self.model, cond: self.handle, other: constraint.handle }),
    {
        Call::IfOnlyIf { model: self.model, cond: self.handle, other: constraint.handle }
    }
}

} // verus!
