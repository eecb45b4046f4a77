//! Small host-facing commands with exact results.

use vstd::prelude::*;
use vstd::string::StringExecFns;

verus! {

/// Returns the greeting shown to a newly connected user.
pub fn greet(name: &str) -> (greeting: String)
    ensures
        greeting@ == "Hello, "@ + name@ + "! Welcome to Sea Reader."@,
{
    String::from_str("Hello, ").concat(name).concat("! Welcome to Sea Reader.")
}

/// Returns the application's version string.
pub fn get_app_version() -> (version: String)
    ensures
        version@ == "0.1.0"@,
{
    String::from_str("0.1.0")
}

} // verus!
