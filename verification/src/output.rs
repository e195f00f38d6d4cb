//! The output-type deriver: what the two variants of a generated method
//! return.

use vstd::prelude::*;
use vstd::string::StringExecFns;

verus! {

/// The return type of the unwrapping variant: the declared type, or the unit
/// type where none is declared.
pub open spec fn unwrapping_type(output: Option<Seq<char>>) -> Seq<char> {
    match output {
        Some(t) => t,
        None => "()"@,
    }
}

/// The return type of the outcome variant: the three-way outcome type of the
/// host, over the unwrapping variant's type, the host's error kind and the
/// conversion error kind.
pub open spec fn outcome_type(crate_path: Seq<char>, output: Option<Seq<char>>) -> Seq<char> {
    crate_path + "::InvocationOutcome<"@ + unwrapping_type(output) + ", "@ + crate_path
        + "::HostError, "@ + crate_path + "::ConversionError>"@
}

/// Derives the return type of the unwrapping variant.
pub fn unwrapping_output(output: &Option<String>) -> (text: String)
    ensures
        text@ == unwrapping_type(
            match *output {
                Some(t) => Some(t@),
                None => None,
            },
        ),
{
    match output {
        Some(t) => t.clone(),
        None => String::from_str("()"),
    }
}

/// Derives the return type of the outcome variant. It is defined for every
/// declared type, and for none: the outcome then wraps the unit type.
pub fn try_output(crate_path: &str, output: &Option<String>) -> (text: String)
    ensures
        text@ == outcome_type(
            crate_path@,
            match *output {
                Some(t) => Some(t@),
                None => None,
            },
        ),
{
    let value = unwrapping_output(output);
    let mut text = String::from_str(crate_path);
    text.append("::InvocationOutcome<");
    text.append(value.as_str());
    text.append(", ");
    text.append(crate_path);
    text.append("::HostError, ");
    text.append(crate_path);
    text.append("::ConversionError>");
    text
}

} // verus!
