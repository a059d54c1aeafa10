//! Command-line argument selection.
//!
//! The command line of the tool takes a single positional argument, the
//! path of the STL file to open. Given the raw argument list (the
//! program name first, as the operating system hands it over),
//! [`path_argument`] picks that path out; whether its absence is fatal
//! is the caller's decision.

use vstd::prelude::*;

verus! {

/// The path argument of the command line: the first argument after the
/// program name, if any.
///
/// Returns `Some` exactly when a path was given, and then the returned
/// string is that argument, unchanged.
pub fn path_argument(args: &Vec<String>) -> (r: Option<String>)
    ensures
        r is Some <==> args@.len() >= 2,
        r matches Some(p) ==> p@ == args@[1]@,
{
    if args.len() >= 2 {
        Some(args[1].clone())
    } else {
        None
    }
}

} // verus!
