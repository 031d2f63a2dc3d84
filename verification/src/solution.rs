use vstd::prelude::*;

use crate::backend::{Call, Handle};
use crate::variables::intvar::IntVar;
use crate::variables::intvar::boolvar::BoolVar;

verus! {

/// A solution found by a solver, as the backend handle of the solution.
#[derive(Debug, Clone, Copy, PartialEq, Eq)]
pub struct Solution {
    pub handle: Handle,
}

impl Solution {
    /// The call that reads the value of an integer variable in this solution.
    pub fn get_int_var_call(&self, int_var: &IntVar) -> (c: Call)
        ensures
            c == (Call::SolutionValue { solution: self.handle, var: int_var.handle }),
    {
        Call::SolutionValue { solution: self.handle, var: int_var.handle }
    }

    /// The call that reads the value of a boolean variable in this solution:
    /// the value of its integer variable.
    pub fn get_bool_var_call(&self, bool_var: &BoolVar) -> (c: Call)
        ensures
            c == (Call::SolutionValue { solution: self.handle, var: bool_var.int_var.handle }),
    {
        Call::SolutionValue { solution: self.handle, var: bool_var.int_var.handle }
    }

    /// The value of a boolean variable, read as the integer `code`: true
    /// exactly when it is not zero.
    pub fn bool_value(code: i32) -> (b: Option<bool>)
        ensures
            b == Some(code != 0),
    {
        Some(code != 0)
    }
}

} // verus!
