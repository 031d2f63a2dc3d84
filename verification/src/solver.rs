use vstd::prelude::*;

pub mod criterion;

use crate::backend::{Call, Handle};
use crate::solution::Solution;
use crate::SolverError;

verus! {

/// The solver of a model, as the pair of backend handles of the solver and
/// of its model.
#[derive(Debug, Clone, Copy, PartialEq, Eq)]
pub struct Solver {
    pub handle: Handle,
    pub model: Handle,
}

impl Solver {
    /// The call that limits the search to `time_limit_ms` milliseconds.  A
    /// negative limit is refused before anything is sent: `requires` leaves it
    /// out.
    pub fn set_time_limit_call(&self, time_limit_ms: i64) -> (c: Call)
        requires
            time_limit_ms >= 0,
        ensures
            c == (Call::LimitTime { solver: self.handle, ms: time_limit_ms }),
    {
        Call::LimitTime { solver: self.handle, ms: time_limit_ms }
    }

    /// The call that searches for a solution under the criteria held by the
    /// backend array `criteria`.
    pub fn find_solution_call(&self, criteria: Handle) -> (c: Call)
        ensures
            c == (Call::FindSolution { solver: self.handle, criteria }),
    {
        Call::FindSolution { solver: self.handle, criteria }
    }

    /// The outcome of a search: the solution at `addr`, or none when the
    /// backend returned null (no solution within the criteria).
    pub fn solution_from(addr: usize) -> (s: Option<Solution>)
        ensures
            s is None <==> addr == 0,
            s matches Some(sol) ==> sol.handle.address() == addr,
    {
        match Handle::from_raw(addr) {
            Some(h) => Some(Solution { handle: h }),
            None => None,
        }
    }

    /// The call that propagates the constraints to a fix point.
    pub fn propagate_call(&self) -> (c: Call)
        ensures
            c == (Call::Propagate { solver: self.handle }),
    {
        Call::Propagate { solver: self.handle }
    }

    /// The outcome of propagation: the backend answers non-zero when it
    /// reached a fix point, zero when it found a contradiction.
    pub fn propagation_result(code: i32) -> (r: Result<(), SolverError>)
        ensures
            code != 0 ==> r == Ok::<(), SolverError>(()),
            code == 0 ==> r == Err::<(), SolverError>(SolverError::FoundContradiction),
    {
        if code != 0 {
            Ok(())
        } else {
            Err(SolverError::FoundContradiction)
        }
    }
}

} // verus!
