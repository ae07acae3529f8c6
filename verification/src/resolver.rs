//! The two host functions the engine injects into the global scope: a
//! logging sink and a minimal module-resolution shim. The shim is a
//! deliberately partial stand-in for a real module system: it recognizes
//! a small fixed set of module names and answers every other request with
//! an empty exports object.

use vstd::prelude::*;
use crate::strutil::str_eq;

verus! {

/// The shape of the exports object the shim hands back for one module
/// name: the names of the functions installed on it.
#[derive(Clone, Debug)]
pub struct ModuleExports {
    pub functions: Vec<String>,
}

/// The shim's fixed table: a mock with `createElement` for `react`, an
/// empty exports object for every other name.
pub open spec fn shim_exports(name: Seq<char>) -> Seq<Seq<char>> {
    if name == "react"@ {
        seq!["createElement"@]
    } else {
        Seq::<Seq<char>>::empty()
    }
}

/// Resolves one module name to the exports the shim provides for it.
pub fn resolve_module(name: &str) -> (e: ModuleExports)
    ensures
        e.functions.deep_view() == shim_exports(name@),
{
    if str_eq(name, "react") {
        let mut functions: Vec<String> = Vec::new();
        functions.push("createElement".to_owned());
        proof {
            assert(functions.deep_view() =~= shim_exports(name@));
        }
        ModuleExports { functions }
    } else {
        let functions: Vec<String> = Vec::new();
        proof {
            assert(functions.deep_view() =~= shim_exports(name@));
        }
        ModuleExports { functions }
    }
}

/// The line the logging sink writes for one logged message.
pub fn format_log_line(message: &str) -> (r: String)
    ensures
        r@ == "Logged: "@ + message@,
{
    let mut line = "Logged: ".to_owned();
    line.append(message);
    line
}

} // verus!
