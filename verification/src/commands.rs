//! Small pure commands of the surface that need no store: the greeting and
//! the static front-end configuration payload.

use vstd::prelude::*;
use vstd::string::StringExecFns;

verus! {

/// The greeting returned for a caller-supplied name.
pub fn greet(name: &str) -> (r: String)
    ensures
        r@ == "Hello, "@ + name@ + "! Welcome to Croissant."@,
{
    let mut s = String::new();
    s.append("Hello, ");
    s.append(name);
    s.append("! Welcome to Croissant.");
    proof {
        assert(s@ =~= "Hello, "@ + name@ + "! Welcome to Croissant."@);
    }
    s
}

/// The static configuration payload handed to the front end.
#[derive(Clone, Copy, PartialEq, Eq, Structural, Debug)]
pub struct FrontendConfig {
    pub demo: bool,
    pub local_dev: bool,
}

/// Returns the deployed configuration: demo on, local development off.
pub fn get_config() -> (r: FrontendConfig)
    ensures
        r.demo,
        !r.local_dev,
{
    FrontendConfig { demo: true, local_dev: false }
}

} // verus!
