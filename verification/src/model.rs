use vstd::prelude::*;

use crate::backend::{optional_name_ok, Call, Handle};
use crate::solver::Solver;

verus! {

/// A constraint programming model, as the backend handle of the model.
/// Models own the variables and constraints created in them.
#[derive(Debug, Clone, Copy, PartialEq, Eq)]
pub struct Model {
    pub handle: Handle,
}

impl Model {
    /// The call that creates a model: named when a name is given.  A name with
    /// a NUL byte cannot be handed to the backend: `requires` leaves it out.
    pub fn new_call(name: Option<&str>) -> (c: Call)
        requires
            optional_name_ok(name),
        ensures
            name is None ==> c == Call::CreateModel,
            name matches Some(n) ==> (c matches Call::CreateNamedModel { name: s } && s@ == n@),
    {
        match name {
            Some(n) => Call::CreateNamedModel { name: n.to_owned() },
            None => Call::CreateModel,
        }
    }

    /// The model that the backend created at `addr` (a null address is a
    /// failure to create it).
    pub fn created(addr: usize) -> (m: Model)
        requires
            addr != 0,
        ensures
            m.handle.address() == addr,
    {
        Model { handle: Handle::new(addr) }
    }

    /// The call that reads the name of the model.
    pub fn name_call(&self) -> (c: Call)
        ensures
            c == (Call::ModelName { model: self.handle }),
    {
        Call::ModelName { model: self.handle }
    }

    /// The call that creates a constant integer variable with value `value`,
    /// named when a name is given.
    pub fn int_var_call(&self, value: i32, name: Option<&str>) -> (c: Call)
        requires
            optional_name_ok(name),
        ensures
            name is None ==> c == (Call::IntVarConstant { model: self.handle, value }),
            name matches Some(n) ==> (c matches Call::IntVarConstantNamed { model: m, name: s, value: v }
                && m == self.handle && s@ == n@ && v == value),
    {
        match name {
            Some(n) => Call::IntVarConstantNamed { model: self.handle, name: n.to_owned(), value },
            None => Call::IntVarConstant { model: self.handle, value },
        }
    }

    /// The call that creates an integer variable whose domain is the set of
    /// values held by the backend array `values`, named when a name is given.
    pub fn int_var_values_call(&self, values: Handle, name: Option<&str>) -> (c: Call)
        requires
            optional_name_ok(name),
        ensures
            name is None ==> c == (Call::IntVarValues { model: self.handle, values }),
            name matches Some(n) ==> (c matches Call::IntVarValuesNamed { model: m, name: s, values: a }
                && m == self.handle && s@ == n@ && a == values),
    {
        match name {
            Some(n) => Call::IntVarValuesNamed { model: self.handle, name: n.to_owned(), values },
            None => Call::IntVarValues { model: self.handle, values },
        }
    }

    /// The call that creates an integer variable with domain `[lb, ub]`,
    /// named when a name is given.  `bounded` forces a bounded (`true`) or an
    /// enumerated (`false`) representation of the domain; without it the
    /// backend chooses.
    pub fn int_var_bounded_call(&self, lb: i32, ub: i32, name: Option<&str>, bounded: Option<bool>) -> (c: Call)
        requires
            optional_name_ok(name),
        ensures
            (bounded, name) matches (None, None) ==> c == (Call::IntVarRange { model: self.handle, lb, ub }),
            (bounded, name) matches (None, Some(n)) ==> (c matches Call::IntVarRangeNamed {
                model: m,
                name: s,
                lb: l,
                ub: u,
            } && m == self.handle && s@ == n@ && l == lb && u == ub),
            (bounded, name) matches (Some(b), None) ==> c == (Call::IntVarRangeBounded {
                model: self.handle,
                lb,
                ub,
                bounded: b,
            }),
            (bounded, name) matches (Some(b), Some(n)) ==> (c matches Call::IntVarRangeBoundedNamed {
                model: m,
                name: s,
                lb: l,
                ub: u,
                bounded: k,
            } && m == self.handle && s@ == n@ && l == lb && u == ub && k == b),
    {
        match (bounded, name) {
            (None, None) => Call::IntVarRange { model: self.handle, lb, ub },
            (None, Some(n)) => Call::IntVarRangeNamed { model: self.handle, name: n.to_owned(), lb, ub },
            (Some(b), None) => Call::IntVarRangeBounded { model: self.handle, lb, ub, bounded: b },
            (Some(b), Some(n)) => Call::IntVarRangeBoundedNamed {
                model: self.handle,
                name: n.to_owned(),
                lb,
                ub,
                bounded: b,
            },
        }
    }

    /// The call that gets the solver of this model.
    pub fn solver_call(&self) -> (c: Call)
        ensures
            c == (Call::ModelSolver { model: self.handle }),
    {
        Call::ModelSolver { model: self.handle }
    }

    /// The solver that the backend returned at `addr` for this model (a null
    /// address is a failure to create it).
    pub fn solver(&self, addr: usize) -> (s: Solver)
        requires
            addr != 0,
        ensures
            s.handle.address() == addr,
            s.model == self.handle,
    {
        Solver { handle: Handle::new(addr), model: self.handle }
    }
}

} // verus!
