//! Rendering fractals (the command does not render anything yet).

use vstd::prelude::*;
use vstd::string::StringExecFns;

verus! {

/// The help text of the fractal command.
pub fn fractal_help() -> (r: String)
    ensures
        r@ == "Generates a fractal image with the given parameters"@,
{
    String::from_str("Generates a fractal image with the given parameters")
}

} // verus!
