//! The requests that the front end sends to the native backend.
//!
//! Every modelling or solving operation ends in one or more calls of the
//! backend's C interface.  A [`Call`] names the entry point and carries its
//! arguments as plain values; the host that owns the loaded library performs
//! it.  The functions of this crate decide which calls to make and what their
//! results mean.

use vstd::prelude::*;
use vstd::string::StringSliceAdditionalSpecFns;

use crate::constraint::{ArithmeticOperator, EqualityOperator};

verus! {

/// A reference to an object that lives in the backend: a model, a variable, a
/// constraint, a solver, a solution, an array or a search criterion.  It holds
/// the address that the backend handed out, which is never null.
#[derive(Debug, Clone, Copy, PartialEq, Eq)]
pub struct Handle {
    addr: usize,
}

impl Handle {
    #[verifier::type_invariant]
    spec fn non_null(self) -> bool {
        self.addr != 0
    }

    /// The address that the handle holds.
    pub closed spec fn address(self) -> usize {
        self.addr
    }

    /// Wraps an address that the backend returned.  A null address is not a
    /// handle: `requires` leaves it out.
    pub fn new(addr: usize) -> (h: Handle)
        requires
            addr != 0,
        ensures
            h.address() == addr,
    {
        Handle { addr }
    }

    /// Wraps an address that the backend returned, or gives `None` when the
    /// address is null (the backend's way of reporting that there is no object).
    pub fn from_raw(addr: usize) -> (h: Option<Handle>)
        ensures
            h is None <==> addr == 0,
            h matches Some(h) ==> h.address() == addr,
    {
        if addr == 0 {
            None
        } else {
            Some(Handle { addr })
        }
    }

    /// The address that the handle holds.
    pub fn addr(&self) -> (a: usize)
        ensures
            a == self.address(),
            a != 0,
    {
        proof {
            use_type_invariant(self);
        }
        self.addr
    }
}

/// An operator of a two-operator arithmetic constraint: either the relation
/// or the arithmetic operation.
#[derive(Debug, Clone, Copy, PartialEq, Eq, Structural)]
pub enum Operator {
    Relation(EqualityOperator),
    Arithmetic(ArithmeticOperator),
}

/// The relations for which the backend can reify a comparison of a variable
/// with a constant or with another variable shifted by a constant.
#[derive(Debug, Clone, Copy, PartialEq, Eq, Structural)]
pub enum ShiftedRelation {
    Eq,
    Ne,
    Lt,
    Gt,
}

impl ShiftedRelation {
    /// Whether the relation holds between `a` and `b`.
    pub open spec fn holds(self, a: int, b: int) -> bool {
        match self {
            ShiftedRelation::Eq => a == b,
            ShiftedRelation::Ne => a != b,
            ShiftedRelation::Lt => a < b,
            ShiftedRelation::Gt => a > b,
        }
    }
}

/// Whether `name` can be handed to the backend as a C string: none of its
/// bytes is NUL.
pub open spec fn is_c_compatible(name: &str) -> bool {
    !name.spec_bytes().contains(0u8)
}

/// Whether an optional name can be handed to the backend.
pub open spec fn optional_name_ok(name: Option<&str>) -> bool {
    name matches Some(n) ==> is_c_compatible(n)
}

/// The truth value of a flag that the backend returns as an integer: any
/// non-zero value is true.
pub fn flag_from_code(code: i32) -> (b: bool)
    ensures
        b == (code != 0),
{
    code != 0
}

/// The kind of objects an array of handles holds.
#[derive(Debug, Clone, Copy, PartialEq, Eq, Structural)]
pub enum ArrayKind {
    BoolVar,
    IntVar,
    Constraint,
    Criterion,
}

/// The search limits the backend counts.
#[derive(Debug, Clone, Copy, PartialEq, Eq, Structural)]
pub enum CriterionKind {
    Node,
    Fail,
    Restart,
    Backtrack,
}

/// One call of the backend's C interface, with its arguments.
///
/// Calls that create an object answer with its handle (null when the backend
/// refuses); the others answer with an integer or with nothing.
#[derive(Debug, Clone, PartialEq, Eq)]
pub enum Call {
    // Models.
    CreateModel,
    CreateNamedModel { name: String },
    ModelName { model: Handle },
    ModelSolver { model: Handle },
    // Integer variables.
    IntVarConstant { model: Handle, value: i32 },
    IntVarConstantNamed { model: Handle, name: String, value: i32 },
    IntVarValues { model: Handle, values: Handle },
    IntVarValuesNamed { model: Handle, name: String, values: Handle },
    IntVarRange { model: Handle, lb: i32, ub: i32 },
    IntVarRangeNamed { model: Handle, name: String, lb: i32, ub: i32 },
    IntVarRangeBounded { model: Handle, lb: i32, ub: i32, bounded: bool },
    IntVarRangeBoundedNamed { model: Handle, name: String, lb: i32, ub: i32, bounded: bool },
    LowerBound { var: Handle },
    UpperBound { var: Handle },
    Value { var: Handle },
    IsInstantiated { var: Handle },
    IsView { var: Handle },
    VariableName { var: Handle },
    HasEnumeratedDomain { var: Handle },
    DomainValues { var: Handle },
    // Boolean variables.
    BoolVar { model: Handle },
    BoolVarNamed { model: Handle, name: String },
    BoolVarFixed { model: Handle, value: i32 },
    BoolVarFixedNamed { model: Handle, name: String, value: i32 },
    // Views.
    OffsetView { var: Handle, offset: i32 },
    ScaleView { var: Handle, scale: i32 },
    MinusView { var: Handle },
    EqView { var: Handle, value: i32 },
    NeView { var: Handle, value: i32 },
    LeView { var: Handle, value: i32 },
    GeView { var: Handle, value: i32 },
    NotView { var: Handle },
    // Constraints.
    Post { constraint: Handle },
    Reify { constraint: Handle },
    ReifyWith { constraint: Handle, boolvar: Handle },
    Implies { constraint: Handle, boolvar: Handle },
    ImpliedBy { constraint: Handle, boolvar: Handle },
    IsSatisfied { constraint: Handle },
    Status { constraint: Handle },
    ArithmConstant { model: Handle, x: Handle, op: EqualityOperator, c: i32 },
    ArithmVar { model: Handle, x: Handle, op: EqualityOperator, y: Handle },
    Arithm2Var { model: Handle, x: Handle, op1: Operator, y: Handle, op2: Operator, z: Handle },
    Arithm2Constant { model: Handle, x: Handle, op1: Operator, y: Handle, op2: Operator, c: i32 },
    AndConstraints { model: Handle, constraints: Handle },
    OrConstraints { model: Handle, constraints: Handle },
    AndBoolVars { model: Handle, boolvars: Handle },
    OrBoolVars { model: Handle, boolvars: Handle },
    ModVar { model: Handle, x: Handle, modulo: Handle, res: Handle },
    ModConstant { model: Handle, x: Handle, modulo: i32, res: i32 },
    ModConstantVar { model: Handle, x: Handle, modulo: i32, res: Handle },
    AllDifferent { model: Handle, vars: Handle },
    AllDifferentExcept0 { model: Handle, vars: Handle },
    AllEqual { model: Handle, vars: Handle },
    NotAllEqual { model: Handle, vars: Handle },
    AtLeastNValues { model: Handle, vars: Handle, n_values: Handle, ac: bool },
    AtMostNValues { model: Handle, vars: Handle, n_values: Handle, strong: bool },
    MemberTable { model: Handle, var: Handle, table: Handle },
    MemberBounds { model: Handle, var: Handle, lb: i32, ub: i32 },
    NotMemberTable { model: Handle, var: Handle, table: Handle },
    NotMemberBounds { model: Handle, var: Handle, lb: i32, ub: i32 },
    Absolute { model: Handle, x: Handle, y: Handle },
    Square { model: Handle, x: Handle, y: Handle },
    Pow { model: Handle, x: Handle, c: i32, y: Handle },
    Max { model: Handle, x: Handle, vars: Handle },
    Min { model: Handle, x: Handle, vars: Handle },
    Among { model: Handle, n: Handle, vars: Handle, values: Handle },
    // Reification.
    IfThenElse { model: Handle, cond: Handle, then_c: Handle, else_c: Handle },
    IfThen { model: Handle, cond: Handle, then_c: Handle },
    IfOnlyIf { model: Handle, cond: Handle, other: Handle },
    IfThenElseBool { model: Handle, cond: Handle, then_c: Handle, else_c: Handle },
    IfThenBool { model: Handle, cond: Handle, then_c: Handle },
    Reification { model: Handle, boolvar: Handle, constraint: Handle },
    ReifyVarVar { rel: EqualityOperator, model: Handle, x: Handle, y: Handle, b: Handle },
    ReifyVarConstant { rel: ShiftedRelation, model: Handle, x: Handle, c: i32, b: Handle },
    ReifyVarShifted { rel: ShiftedRelation, model: Handle, x: Handle, y: Handle, c: i32, b: Handle },
    // Solving.
    LimitTime { solver: Handle, ms: i64 },
    FindSolution { solver: Handle, criteria: Handle },
    Propagate { solver: Handle },
    SolutionValue { solution: Handle, var: Handle },
    CriterionCounter { kind: CriterionKind, model: Handle, limit: i64 },
    // Arrays.
    IntArrayCreate { len: i32 },
    IntArraySet { array: Handle, value: i32, index: i32 },
    IntArrayLength { array: Handle },
    IntArrayGet { array: Handle, index: i32 },
    ArrayCreate { kind: ArrayKind, len: i32 },
    ArraySet { kind: ArrayKind, array: Handle, item: Handle, index: i32 },
    // Lifetime.
    Destroy { handle: Handle },
}

} // verus!
