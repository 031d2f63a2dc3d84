//! Verified core of a Rust front end to the Choco constraint solver.
//!
//! The native solver is reached through a C interface that the host crate
//! loads at run time.  This crate holds everything about that front end that
//! can be decided without the native code: the operator symbols and status
//! codes exchanged with the backend, the search criteria, the domains of the
//! variables introduced by arithmetic operators, the backend call that every
//! modelling operation makes, and the bookkeeping of where the native library
//! is loaded from.

pub mod backend;
pub mod constraint;
pub mod model;
pub mod solution;
pub mod solver;
pub mod utils;
pub mod variables;

pub use backend::{ArrayKind, Call, CriterionKind, Handle, Operator, ShiftedRelation};
pub use constraint::{ArithmeticOperator, Constraint, ConstraintStatus, ESat, EqualityOperator};
pub use model::Model;
pub use solution::Solution;
pub use solver::criterion::Criterion;
pub use solver::Solver;
pub use variables::intvar::boolvar::BoolVar;
pub use variables::intvar::{Bounds, IntVar};

use vstd::prelude::*;

verus! {

/// Errors that can occur during constraint solving.
#[derive(Debug, Clone, Copy, PartialEq, Eq, Structural)]
#[non_exhaustive]
pub enum SolverError {
    NotFreeConstraint,
    FoundContradiction,
    BoolVarConversionError,
    Unknown,
}

impl SolverError {
    /// The text that describes the error.
    pub open spec fn message_spec(self) -> Seq<char> {
        match self {
            SolverError::NotFreeConstraint => "Tried to post a not free constraint or reified constraint"@,
            SolverError::FoundContradiction => "Found contradiction while propagating"@,
            SolverError::BoolVarConversionError => "Cannot be converted to BoolVar: domain is not [0,1]"@,
            SolverError::Unknown => "unknown data store error"@,
        }
    }

    /// The text that describes the error.
    pub fn message(&self) -> (m: &'static str)
        ensures
            m@ == self.message_spec(),
    {
        match self {
            SolverError::NotFreeConstraint => "Tried to post a not free constraint or reified constraint",
            SolverError::FoundContradiction => "Found contradiction while propagating",
            SolverError::BoolVarConversionError => "Cannot be converted to BoolVar: domain is not [0,1]",
            SolverError::Unknown => "unknown data store error",
        }
    }
}

/// Either an integer constant or an integer variable: the right-hand side of
/// the operations that accept both.
#[derive(Debug, Clone, Copy, PartialEq, Eq)]
pub enum IntOrIntVar {
    IntVar(IntVar),
    Int(i32),
}


/// What a thread must do to reach the backend: the first thread creates the
/// isolate (the backend's execution environment), the others attach to it.
#[derive(Debug, Clone, Copy, PartialEq, Eq)]
pub enum IsolateAction {
    Create,
    Attach { isolate: Handle },
}

/// Where the native library is loaded from: its platform file name, in a
/// folder when one is configured, else wherever the system looks for
/// libraries.
#[derive(Debug, Clone, PartialEq, Eq)]
pub struct LibraryLocation {
    pub folder: Option<String>,
    pub file_name: String,
}

/// The base name of the native library: `libchoco_capi` on Windows,
/// `choco_capi` elsewhere (where the platform adds the `lib` prefix).
pub fn library_name(windows: bool) -> (name: &'static str)
    ensures
        windows ==> name@ == "libchoco_capi"@,
        !windows ==> name@ == "choco_capi"@,
{
    if windows {
        "libchoco_capi"
    } else {
        "choco_capi"
    }
}

/// Whether `file` is `name` between a prefix and a suffix: the shape of the
/// platform's file name of a library called `name`.
pub open spec fn is_library_file_name(file: Seq<char>, name: Seq<char>) -> bool {
    exists|prefix: Seq<char>, suffix: Seq<char>| #[trigger] (prefix + name + suffix) == file
}

/// The platform file name of the dynamic library called `name`, by
/// `libloading::library_filename`: the platform's library prefix, then
/// `name`, then the platform's library suffix (`lib` and `.so` on Linux,
/// nothing and `.dll` on Windows).  The contract states that the result is
/// `name` between some prefix and some suffix; it does not state which, as
/// they are constants of the target platform.  So the contract alone does not
/// tell `choco_capi` from `libchoco_capi` in the result: which base name is
/// handed over is fixed by `library_name`'s contract, not by this one.
#[verifier::external_body]
fn library_filename(name: &str) -> (file: String)
    ensures
        is_library_file_name(file@, name@),
{
    libloading::library_filename(name).to_string_lossy().into_owned()
}

/// Process-wide state of the native backend: the folder that the native
/// library is loaded from, which is decided once (by `set_dll_folder`, or at
/// the first load from the environment), and the isolate that threads attach
/// to once the first thread created it.
#[derive(Debug)]
pub struct ChocoBackend {
    dll_folder: Option<Option<String>>,
    isolate: Option<Handle>,
}

/// The folder configuration after `set_dll_folder(path)`: decided as `path`
/// if it was undecided, unchanged otherwise.
pub open spec fn after_set_dll_folder(state: Option<Option<Seq<char>>>, path: Seq<char>) -> Option<
    Option<Seq<char>>,
> {
    match state {
        None => Some(Some(path)),
        Some(decided) => Some(decided),
    }
}

/// The folder configuration after the library is located with the
/// environment's value `env`: decided as `env` if it was undecided.
pub open spec fn after_load(state: Option<Option<Seq<char>>>, env: Option<Seq<char>>) -> Option<
    Option<Seq<char>>,
> {
    match state {
        None => Some(env),
        Some(decided) => Some(decided),
    }
}

/// The folder of a decided configuration, as a sequence of characters.
pub open spec fn folder_view(folder: Option<String>) -> Option<Seq<char>> {
    match folder {
        Some(f) => Some(f@),
        None => None,
    }
}

impl ChocoBackend {
    /// The folder configuration: `None` while undecided, else the decided
    /// folder (itself `None` when the library is searched in system paths).
    pub closed spec fn dll_folder_state(&self) -> Option<Option<Seq<char>>> {
        match self.dll_folder {
            Some(f) => Some(folder_view(f)),
            None => None,
        }
    }

    /// The isolate, once created.
    pub closed spec fn isolate_state(&self) -> Option<Handle> {
        self.isolate
    }

    /// The state of a process that has not touched the backend yet.
    pub fn new() -> (b: ChocoBackend)
        ensures
            b.dll_folder_state() is None,
            b.isolate_state() is None,
    {
        ChocoBackend { dll_folder: None, isolate: None }
    }

    /// Sets the folder path where the native library is located.  This only
    /// succeeds while the folder is undecided (before this was called and
    /// before the library was loaded); afterwards the configuration stays as
    /// it is and the path is handed back in the error.
    pub fn set_dll_folder(&mut self, dll_folder_path: String) -> (r: Result<(), Option<String>>)
        ensures
            final(self).dll_folder_state() == after_set_dll_folder(old(self).dll_folder_state(), dll_folder_path@),
            r is Ok <==> old(self).dll_folder_state() is None,
            r matches Err(e) ==> (e matches Some(p) && p@ == dll_folder_path@),
            final(self).isolate_state() == old(self).isolate_state(),
    {
        match self.dll_folder {
            None => {
                self.dll_folder = Some(Some(dll_folder_path));
                Ok(())
            },
            Some(_) => Err(Some(dll_folder_path)),
        }
    }

    /// The folder the library is loaded from.  If it is still undecided, it is
    /// decided now as `from_environment` (the value of the environment
    /// variable `CHOCO_SOLVER_DLL_FOLDER`, if set).
    pub fn dll_folder(&mut self, from_environment: Option<String>) -> (folder: Option<String>)
        ensures
            final(self).dll_folder_state() == after_load(old(self).dll_folder_state(), folder_view(from_environment)),
            final(self).dll_folder_state() == Some(folder_view(folder)),
            final(self).isolate_state() == old(self).isolate_state(),
    {
        match &self.dll_folder {
            Some(f) => clone_folder(f),
            None => {
                let f = clone_folder(&from_environment);
                self.dll_folder = Some(from_environment);
                f
            },
        }
    }

    /// Where to load the native library from: its platform file name, in the
    /// decided folder (deciding it from `from_environment` if needed).  The
    /// file name is the platform's file name of `library_name(windows)`; the
    /// contract states it up to the platform's prefix and suffix, which are
    /// constants of the target and not stated.
    pub fn library_location(&mut self, windows: bool, from_environment: Option<String>) -> (loc: LibraryLocation)
        ensures
            final(self).dll_folder_state() == after_load(old(self).dll_folder_state(), folder_view(from_environment)),
            final(self).dll_folder_state() == Some(folder_view(loc.folder)),
            final(self).isolate_state() == old(self).isolate_state(),
            is_library_file_name(
                loc.file_name@,
                if windows {
                    "libchoco_capi"@
                } else {
                    "choco_capi"@
                },
            ),
    {
        let folder = self.dll_folder(from_environment);
        let file_name = library_filename(library_name(windows));
        LibraryLocation { folder, file_name }
    }

    /// What the current thread must do to reach the backend.
    pub fn attach_action(&self) -> (a: IsolateAction)
        ensures
            self.isolate_state() is None ==> a == IsolateAction::Create,
            self.isolate_state() matches Some(i) ==> a == (IsolateAction::Attach { isolate: i }),
    {
        match self.isolate {
            None => IsolateAction::Create,
            Some(i) => IsolateAction::Attach { isolate: i },
        }
    }

    /// Records the isolate that the first thread created.
    pub fn record_isolate(&mut self, isolate: Handle)
        requires
            old(self).isolate_state() is None,
        ensures
            final(self).isolate_state() == Some(isolate),
            final(self).dll_folder_state() == old(self).dll_folder_state(),
    {
        self.isolate = Some(isolate);
    }
}

fn clone_folder(f: &Option<String>) -> (c: Option<String>)
    ensures
        folder_view(c) == folder_view(*f),
{
    match f {
        Some(s) => Some(s.clone()),
        None => None,
    }
}

/// The folder of the native library is decided at most once: after a
/// `set_dll_folder` or a load, every later `set_dll_folder` fails and leaves
/// the configuration as it is, and every later load keeps it too.
pub proof fn lemma_dll_folder_decided_once(
    state: Option<Option<Seq<char>>>,
    first: Seq<char>,
    env: Option<Seq<char>>,
    later: Seq<char>,
    later_env: Option<Seq<char>>,
)
    ensures
        after_set_dll_folder(state, first) is Some,
        after_load(state, env) is Some,
        ({
            let decided = after_set_dll_folder(state, first);
            &&& after_set_dll_folder(decided, later) == decided
            &&& after_load(decided, later_env) == decided
        }),
        ({
            let decided = after_load(state, env);
            &&& after_set_dll_folder(decided, later) == decided
            &&& after_load(decided, later_env) == decided
        }),
        state is None ==> after_set_dll_folder(state, first) == Some(Some(first)),
{
}

} // verus!
