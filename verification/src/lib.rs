//! Core logic of a policy artifact inspection and packaging tool.
//!
//! Given the metadata embedded in a compiled policy artifact, this library
//! computes everything the surrounding tool has to decide or shape:
//! the ordered stream of presentation events for the two output modes,
//! the classification of a registry's answer to a signature lookup,
//! and the descriptor/values/questions documents of a deployable bundle.
//! All file, network and terminal work stays outside, in thin adapters
//! that hand the library plain values.

use vstd::prelude::*;

pub mod metadata;
pub mod render;
pub mod scaffold;
pub mod signature;
pub mod text;

verus! {

/// Output mode selector: exactly two accepted values, `yaml` (structured)
/// and unset (interactive / pretty).
#[derive(Clone, Copy, Debug, PartialEq, Eq)]
pub enum OutputType {
    Yaml,
    Pretty,
}

/// Parses the user-supplied output format selector.
///
/// `Some("yaml")` selects the structured mode, an unset selector the pretty
/// mode; any other value is a configuration error naming the bad value.
pub fn output_type_from_selector(value: Option<&str>) -> (r: Result<OutputType, String>)
    ensures
        match value {
            Some(v) => if v@ == "yaml"@ {
                r == Ok::<OutputType, String>(OutputType::Yaml)
            } else {
                r is Err && r->Err_0@ == "Invalid output format '"@ + v@ + "'"@
            },
            None => r == Ok::<OutputType, String>(OutputType::Pretty),
        },
{
    match value {
        Some(v) => {
            if text::str_eq(v, "yaml") {
                Ok(OutputType::Yaml)
            } else {
                let mut msg = String::from_str("Invalid output format '");
                msg.append(v);
                msg.append("'");
                Err(msg)
            }
        },
        None => Ok(OutputType::Pretty),
    }
}

} // verus!
