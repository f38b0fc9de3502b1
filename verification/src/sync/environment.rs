//! Which server the client talks to.
use vstd::prelude::*;
use crate::text::{str_eq, trim, trim_ws};

verus! {

#[derive(Debug, Clone, Copy, PartialEq, Eq, Structural)]
pub enum ServerEnvironment {
    Local,
    Remote,
}

/// The environment used when none is named.
pub open spec fn selected_server_environment() -> ServerEnvironment {
    ServerEnvironment::Remote
}

pub fn selected() -> (r: ServerEnvironment)
    ensures
        r == selected_server_environment(),
{
    ServerEnvironment::Remote
}

/// What `str::to_lowercase` gives for a text.
pub uninterp spec fn lowercase(s: Seq<char>) -> Seq<char>;

/// `str::to_lowercase`: the text with every character mapped to its lower-case form
/// (Unicode rules, which the contract leaves to the name).
#[verifier::external_body]
fn to_lowercase(s: &str) -> (r: String)
    ensures
        r@ == lowercase(s@),
{
    s.to_lowercase()
}

/// The environment a lower-case name stands for.
pub open spec fn environment_named(name: Seq<char>) -> ServerEnvironment {
    if name == "local"@ {
        ServerEnvironment::Local
    } else if name == "remote"@ || name == "prod"@ || name == "production"@ {
        ServerEnvironment::Remote
    } else {
        selected_server_environment()
    }
}

/// The environment for a name that is already trimmed and in lower case.
pub fn server_environment_of(name: &str) -> (r: ServerEnvironment)
    ensures
        r == environment_named(name@),
{
    if str_eq(name, "local") {
        ServerEnvironment::Local
    } else if str_eq(name, "remote") || str_eq(name, "prod") || str_eq(name, "production") {
        ServerEnvironment::Remote
    } else {
        selected()
    }
}

/// The environment named by the text, ignoring white space around it and case.
pub fn parse_server_environment(environment: &str) -> (r: ServerEnvironment)
    ensures
        r == environment_named(lowercase(trim_ws(environment@))),
{
    let lowered = to_lowercase(trim(environment));
    server_environment_of(lowered.as_str())
}

} // verus!
