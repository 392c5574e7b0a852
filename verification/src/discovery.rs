//! Choosing the worker-language interpreter.
//!
//! At startup the surrounding application checks whether the bundled
//! virtual-environment interpreter exists and which of a small, ordered set
//! of well-known interpreter names respond on the search path; the choice
//! among those findings is made here. Failing to find any usable
//! interpreter is the one fatal startup condition of the whole system.

use vstd::prelude::*;
use vstd::string::*;

verus! {

/// How many well-known interpreter names are probed, in order.
pub const CANDIDATE_COUNT: usize = 3;

/// The outcome of interpreter discovery.
#[derive(Clone, Copy, Debug, PartialEq, Eq, Structural)]
pub enum InterpreterChoice {
    /// Use the bundled virtual-environment interpreter.
    Venv,
    /// Use the i-th of the well-known interpreter names.
    Candidate(usize),
    /// Nothing usable was found: startup must abort.
    NotFound,
}

/// The i-th well-known interpreter name, in probe order.
pub fn candidate_name(i: usize) -> (r: String)
    requires
        i < CANDIDATE_COUNT,
    ensures
        i == 0 ==> r@ == "python3"@,
        i == 1 ==> r@ == "python"@,
        i == 2 ==> r@ == "py"@,
{
    if i == 0 {
        String::from_str("python3")
    } else if i == 1 {
        String::from_str("python")
    } else {
        String::from_str("py")
    }
}

/// Picks the interpreter: the bundled virtual environment wins outright;
/// otherwise the first responding well-known name is taken, in order; with
/// neither, discovery fails.
pub fn choose_interpreter(venv_available: bool, candidate_ok: &Vec<bool>) -> (r: InterpreterChoice)
    ensures
        venv_available ==> r == InterpreterChoice::Venv,
        !venv_available ==> match r {
            InterpreterChoice::Venv => false,
            InterpreterChoice::Candidate(i) => i < candidate_ok.len() && candidate_ok[i as int]
                && forall|j: int| 0 <= j < i ==> !candidate_ok[j],
            InterpreterChoice::NotFound => forall|j: int|
                0 <= j < candidate_ok.len() ==> !candidate_ok[j],
        },
{
    if venv_available {
        return InterpreterChoice::Venv;
    }
    let mut i: usize = 0;
    while i < candidate_ok.len()
        invariant
            !venv_available,
            i <= candidate_ok.len(),
            forall|j: int| 0 <= j < i ==> !candidate_ok[j],
        decreases candidate_ok.len() - i,
    {
        if candidate_ok[i] {
            return InterpreterChoice::Candidate(i);
        }
        i += 1;
    }
    InterpreterChoice::NotFound
}

} // verus!
