//! Resolution of the invocation's input-path arguments.
//!
//! The invoker may pass any number of path arguments, each a non-empty
//! string. When none are passed, the program works on exactly one default
//! input, the current-directory marker. The marker is computed once, up
//! front, and threaded through explicitly rather than read ambiently.

use vstd::prelude::*;

verus! {

/// The marker an empty invocation falls back to: the current directory.
pub fn current_dir_marker() -> (s: String)
    ensures
        s@ == "."@,
        s@.len() > 0,
{
    proof {
        reveal_strlit(".");
    }
    String::from_str(".")
}

/// The inputs a run works on: the arguments exactly as given, or, for an
/// empty invocation, exactly one default value. The result is never empty,
/// and every entry is a non-empty string.
pub fn resolve_inputs(args: Vec<String>, default_input: String) -> (r: Vec<String>)
    requires
        default_input@.len() > 0,
        forall|i: int| 0 <= i < args@.len() ==> #[trigger] args@[i]@.len() > 0,
    ensures
        args@.len() > 0 ==> r@ == args@,
        args@.len() == 0 ==> r@.len() == 1 && r@[0] == default_input,
        r@.len() >= 1,
        forall|i: int| 0 <= i < r@.len() ==> #[trigger] r@[i]@.len() > 0,
{
    if args.len() == 0 {
        let mut only_default: Vec<String> = Vec::new();
        only_default.push(default_input);
        only_default
    } else {
        args
    }
}

} // verus!
