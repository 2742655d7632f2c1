//! Configuration of the external header-to-binding generator.
//!
//! The generator itself parses the wrapper header and writes the binding
//! artifact; that work is external. What is decided here is the
//! configuration it is driven with: the header, the suppressed type, the
//! fixed enum and alias policies, one include-search argument per
//! discovered include path, and whether build metadata (the change
//! tracking and the macro-capture hook) is emitted.

use vstd::prelude::*;
use vstd::string::*;

verus! {

/// The full configuration handed to the binding generator. The policies
/// are fixed: enums are generated with exhaustive variants, never leaving
/// room for unknown future values, and type aliases are preserved as
/// distinct named aliases rather than flattened.
#[derive(Debug)]
pub struct GeneratorConfig {
    /// The wrapper header the generator parses.
    pub header: String,
    /// Type names suppressed from the generated bindings.
    pub blocked_types: Vec<String>,
    /// Enum representations carry every variant, with no catch-all.
    pub exhaustive_enums: bool,
    /// Type aliases stay distinct named aliases.
    pub preserve_aliases: bool,
    /// One include-search argument per discovered include path.
    pub clang_args: Vec<String>,
    /// Whether change tracking and the macro-capture hook are installed.
    pub emit_cargo_metadata: bool,
}

/// The generator configuration for the given wrapper header and include
/// paths. Only when `emit` is set does the configuration ask for build
/// metadata: re-running generation when the header changes, and the
/// callback that captures the version macro.
pub fn bindings_builder(header: String, include_paths: &Vec<String>, emit: bool) -> (c:
    GeneratorConfig)
    ensures
        c.header@ == header@,
        c.blocked_types@.len() == 1,
        c.blocked_types@[0]@ == "my_bool"@,
        c.exhaustive_enums,
        c.preserve_aliases,
        c.clang_args@.len() == include_paths@.len(),
        forall|i: int|
            0 <= i < include_paths@.len() ==> c.clang_args@[i]@ == "-I"@ + include_paths@[i]@,
        c.emit_cargo_metadata == emit,
{
    let mut blocked_types: Vec<String> = Vec::new();
    blocked_types.push(String::from_str("my_bool"));
    let mut clang_args: Vec<String> = Vec::new();
    let mut idx: usize = 0;
    while idx < include_paths.len()
        invariant
            idx <= include_paths@.len(),
            clang_args@.len() == idx,
            forall|i: int|
                0 <= i < idx ==> clang_args@[i]@ == "-I"@ + include_paths@[i]@,
        decreases include_paths@.len() - idx,
    {
        clang_args.push(String::from_str("-I").concat(include_paths[idx].as_str()));
        idx += 1;
    }
    GeneratorConfig {
        header,
        blocked_types,
        exhaustive_enums: true,
        preserve_aliases: true,
        clang_args,
        emit_cargo_metadata: emit,
    }
}

} // verus!
