//! Identification of this library: name, version, and the agent string that
//! a coordinator would see.
use vstd::prelude::*;

verus! {

pub const SDK_NAME: &'static str = "syncyam";

pub const SDK_VER: &'static str = "0.1.0";

/// The agent string is the library name and version joined by a dash.
pub fn get_agent() -> (r: String)
    ensures
        r@ == SDK_NAME@ + "-"@ + SDK_VER@,
{
    let mut s = String::new();
    s.append(SDK_NAME);
    s.append("-");
    s.append(SDK_VER);
    assert(s@ == SDK_NAME@ + "-"@ + SDK_VER@);
    s
}

} // verus!
