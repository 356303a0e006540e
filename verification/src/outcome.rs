//! Classification of the activation child's outcome.
//!
//! The supervisor first performs a direct, blocking wait on the child. A
//! child that installs its own handler for the child-state-change signal can
//! reap itself, in which case the direct wait fails even though the child
//! exited; the supervisor then falls back to a second wait primitive whose
//! "no such child" result must be folded into success. These classifiers are
//! the two decision points of that policy.

use vstd::prelude::*;

verus! {

/// Why a wait primitive failed, as observed from the OS.
#[derive(Clone, Copy, Debug, PartialEq, Eq, Structural)]
pub enum WaitFailure {
    /// The kernel reported that the caller has no such child: the child was
    /// already reaped (for example by the child's own signal handling).
    NoSuchChild,
    /// Any other OS error, carried by its raw errno value.
    Other(i32),
}

/// A fatal outcome of supervising the activation program.
#[derive(Clone, Copy, Debug, PartialEq, Eq, Structural)]
pub enum ActivationError {
    /// The program exited on its own with this nonzero status code.
    NonzeroExit(i32),
    /// The program was terminated by a signal, so no exit code exists.
    Signaled,
    /// The fallback wait itself failed with this raw errno value, other than
    /// the benign "no such child".
    WaitError(i32),
}

/// What the direct-wait classifier decides for a given exit code.
pub open spec fn spec_check_activation_exit(code: Option<i32>) -> Result<(), ActivationError> {
    match code {
        Some(c) => if c == 0 {
            Ok(())
        } else {
            Err(ActivationError::NonzeroExit(c))
        },
        None => Err(ActivationError::Signaled),
    }
}

/// Classify a successful direct wait by the child's exit code: zero is
/// success, any nonzero code is fatal, and a missing code (termination by
/// signal) is fatal.
pub fn check_activation_exit(code: Option<i32>) -> (r: Result<(), ActivationError>)
    ensures
        r == spec_check_activation_exit(code),
        r is Ok <==> code == Some(0i32),
{
    match code {
        Some(0) => Ok(()),
        Some(c) => Err(ActivationError::NonzeroExit(c)),
        None => Err(ActivationError::Signaled),
    }
}

/// What the fallback-wait classifier decides for a given wait result.
pub open spec fn spec_interpret_waitid_result(result: Result<(), WaitFailure>) -> Result<
    (),
    ActivationError,
> {
    match result {
        Ok(_) => Ok(()),
        Err(WaitFailure::NoSuchChild) => Ok(()),
        Err(WaitFailure::Other(e)) => Err(ActivationError::WaitError(e)),
    }
}

/// Classify the fallback wait: success is success, "no such child" means the
/// child already exited and was reaped elsewhere — also success — and every
/// other failure is fatal, carrying its errno.
pub fn interpret_waitid_result(result: Result<(), WaitFailure>) -> (r: Result<
    (),
    ActivationError,
>)
    ensures
        r == spec_interpret_waitid_result(result),
        r is Ok <==> (result is Ok || result == Err::<(), WaitFailure>(WaitFailure::NoSuchChild)),
{
    match result {
        Ok(_) => Ok(()),
        Err(WaitFailure::NoSuchChild) => Ok(()),
        Err(WaitFailure::Other(e)) => Err(ActivationError::WaitError(e)),
    }
}

/// The fixed part of the message each fatal activation outcome is reported
/// with. A nonzero exit carries its status code and a wait error its errno;
/// the caller appends those.
pub fn activation_message(e: ActivationError) -> (r: &'static str)
    ensures
        e is NonzeroExit ==> r@ == "Activation exited with status"@,
        e is Signaled ==> r@ == "Activation terminated by signal"@,
        e is WaitError ==> r@ == "When waiting"@,
{
    match e {
        ActivationError::NonzeroExit(_) => "Activation exited with status",
        ActivationError::Signaled => "Activation terminated by signal",
        ActivationError::WaitError(_) => "When waiting",
    }
}

} // verus!
