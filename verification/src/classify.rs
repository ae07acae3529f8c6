//! Classification of transformed source text into the two execution
//! shapes the engine offers: a plain top-level script, or a module that
//! must be compiled, instantiated and evaluated.

use vstd::prelude::*;
use crate::strutil::{contains_seq, contains_str};

verus! {

/// The execution path a compiled unit takes.
#[derive(Clone, Copy, Debug, PartialEq, Eq, Structural)]
pub enum UnitKind {
    /// Compile the text as a classic script and run it directly.
    Script,
    /// Compile as a module, instantiate it, evaluate it, and touch its
    /// namespace object to force top-level side effects.
    Module,
}

/// Source text is module-shaped when it contains an `import` or `export`
/// token anywhere. This is the embedding's textual heuristic, not a
/// syntactic guarantee: a string or comment containing either word also
/// selects the module path.
pub open spec fn is_module_source(s: Seq<char>) -> bool {
    contains_seq(s, "import"@) || contains_seq(s, "export"@)
}

/// Decides which execution path the source takes.
pub fn classify_source(code: &str) -> (k: UnitKind)
    ensures
        k == UnitKind::Module <==> is_module_source(code@),
        k == UnitKind::Script <==> !is_module_source(code@),
{
    if contains_str(code, "import") || contains_str(code, "export") {
        UnitKind::Module
    } else {
        UnitKind::Script
    }
}

/// A runnable unit: the transformed source text together with the
/// execution shape the classifier chose for it.
#[derive(Clone, Debug)]
pub struct CompiledUnit {
    pub code: String,
    pub kind: UnitKind,
}

impl CompiledUnit {
    /// Packages transformed source with its classification.
    pub fn new(code: String) -> (u: CompiledUnit)
        ensures
            u.code@ == code@,
            u.kind == UnitKind::Module <==> is_module_source(code@),
            u.kind == UnitKind::Script <==> !is_module_source(code@),
    {
        let kind = classify_source(code.as_str());
        CompiledUnit { code, kind }
    }
}

} // verus!
