//! The argument vector handed to the service manager.
//!
//! On success the shim never returns: its process image is replaced by the
//! service manager. The replacement is invoked with the shim's own original
//! argv[0] (so it is indistinguishable from direct invocation), one fixed
//! logging-destination flag, and then every original argument after argv[0],
//! verbatim and in order.

use vstd::prelude::*;
use vstd::string::*;

verus! {

/// The logging-destination flag injected ahead of the forwarded arguments.
pub fn log_target_flag() -> (r: &'static str)
    ensures
        r@ == "--log-target=kmsg"@,
{
    "--log-target=kmsg"
}

/// Build the handoff argument list from the shim's own argument vector: the
/// fixed logging flag first, then every original argument after argv[0],
/// kept verbatim and in order. The caller passes the shim's original argv,
/// which always holds at least argv[0].
pub fn build_handoff_args(argv: &Vec<String>) -> (r: Vec<String>)
    requires
        argv@.len() >= 1,
    ensures
        r@.len() == argv@.len(),
        r@[0]@ == "--log-target=kmsg"@,
        forall|i: int| 1 <= i < argv@.len() ==> r@[i]@ == argv@[i]@,
{
    let mut r: Vec<String> = Vec::new();
    r.push(String::from_str("--log-target=kmsg"));
    let mut i: usize = 1;
    while i < argv.len()
        invariant
            1 <= i <= argv@.len(),
            r@.len() == i,
            r@[0]@ == "--log-target=kmsg"@,
            forall|j: int| 1 <= j < i ==> r@[j]@ == argv@[j]@,
        decreases argv@.len() - i,
    {
        r.push(argv[i].clone());
        i += 1;
    }
    r
}

} // verus!
