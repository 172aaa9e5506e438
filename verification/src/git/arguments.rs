//! Locating git's command after its global options, without changing arguments.

use vstd::prelude::*;

use crate::parts::starts_with;
use crate::text::{same, Text};

verus! {

/// Whether an argument is a global option and not the command, or one that
/// stands in its place.
pub open spec fn is_global(arg: Text) -> bool {
    &&& "-"@.is_prefix_of(arg)
    &&& arg != "--"@
    &&& arg != "--version"@
    &&& arg != "-v"@
    &&& arg != "--help"@
    &&& arg != "-h"@
}

/// Whether a global option has its value in the next argument.
pub open spec fn takes_value(arg: Text) -> bool {
    ||| arg == "-c"@
    ||| arg == "-C"@
    ||| arg == "--git-dir"@
    ||| arg == "--work-tree"@
    ||| arg == "--namespace"@
    ||| arg == "--config-env"@
}

/// How many arguments at the front are global options and their values.
pub open spec fn global_length(args: Seq<Text>) -> int
    decreases args.len(),
{
    if args.len() == 0 || !is_global(args[0]) {
        0
    } else if !takes_value(args[0]) {
        1 + global_length(args.skip(1))
    } else if args.len() == 1 {
        1
    } else {
        2 + global_length(args.skip(2))
    }
}

/// Where the command stands: behind the global options and their values.
pub fn command_boundary(args: &Vec<String>) -> (boundary: usize)
    ensures
        boundary == global_length(args.deep_view()),
        boundary <= args@.len(),
{
    let len = args.len();
    let mut boundary: usize = 0;
    assert(args.deep_view().skip(0) =~= args.deep_view());
    while boundary < len
        invariant
            boundary <= len,
            len == args@.len(),
            global_length(args.deep_view()) == boundary + global_length(
                args.deep_view().skip(boundary as int),
            ),
        decreases len - boundary,
    {
        let arg = args[boundary].as_str();
        let ghost rest = args.deep_view().skip(boundary as int);
        assert(rest[0] == arg@);
        if !starts_with(arg, "-") || same(arg, "--") || same(arg, "--version") || same(arg, "-v")
            || same(arg, "--help") || same(arg, "-h") {
            return boundary;
        }
        assert(rest.skip(1) =~= args.deep_view().skip(boundary + 1));
        assert(rest.len() > 1 ==> rest.skip(2) =~= args.deep_view().skip(boundary + 2));
        boundary = boundary + 1;
        if same(arg, "-c") || same(arg, "-C") || same(arg, "--git-dir") || same(arg, "--work-tree")
            || same(arg, "--namespace") || same(arg, "--config-env") {
            if boundary < len {
                boundary = boundary + 1;
            }
        }
    }
    boundary
}

/// What stands at the boundary is never a global option, so what is inserted
/// there comes behind all of them and before the command.
pub proof fn the_boundary_is_at_the_command(args: Seq<Text>)
    ensures
        0 <= global_length(args) <= args.len(),
        global_length(args) < args.len() ==> !is_global(args[global_length(args)]),
    decreases args.len(),
{
    if args.len() > 0 && is_global(args[0]) {
        if !takes_value(args[0]) {
            the_boundary_is_at_the_command(args.skip(1));
        } else if args.len() > 1 {
            the_boundary_is_at_the_command(args.skip(2));
        }
    }
}

} // verus!
