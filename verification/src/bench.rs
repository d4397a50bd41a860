//! What the two benchmark harnesses share: the sandbox variants they can
//! drive and the comma-separated rows they emit.

use vstd::prelude::*;
use vstd::string::*;
use crate::numfmt::dec_chars;

verus! {

/// The five sandbox variants a benchmark configuration can name.
#[derive(Clone, Copy, PartialEq, Eq, Structural, Debug)]
pub enum EvalType {
    Firecracker,
    FirecrackerSnapshot,
    Process,
    Unikraft,
    Hyperlight,
}

impl EvalType {
    /// Reads a variant name from a configuration. `None` exactly for a
    /// name that no variant carries.
    pub fn from_string(s: &str) -> (r: Option<EvalType>)
        ensures
            match r {
                Some(t) => match t {
                    EvalType::Firecracker => s@ == "firecracker"@,
                    EvalType::FirecrackerSnapshot => s@ == "firecracker-snapshot"@,
                    EvalType::Unikraft => s@ == "unikraft"@,
                    EvalType::Process => s@ == "process"@,
                    EvalType::Hyperlight => s@ == "hyperlight"@,
                },
                None => s@ != "firecracker"@ && s@ != "firecracker-snapshot"@ && s@ != "unikraft"@
                    && s@ != "process"@ && s@ != "hyperlight"@,
            },
    {
        let owned: String = s.to_owned();
        if crate::cli::string_is(&owned, "firecracker") {
            Some(EvalType::Firecracker)
        } else if crate::cli::string_is(&owned, "firecracker-snapshot") {
            Some(EvalType::FirecrackerSnapshot)
        } else if crate::cli::string_is(&owned, "unikraft") {
            Some(EvalType::Unikraft)
        } else if crate::cli::string_is(&owned, "process") {
            Some(EvalType::Process)
        } else if crate::cli::string_is(&owned, "hyperlight") {
            Some(EvalType::Hyperlight)
        } else {
            None
        }
    }
}

/// One `system,operation,count` row.
pub open spec fn csv_row_chars(name: Seq<char>, op: Seq<char>, value: nat) -> Seq<char> {
    name + ","@ + op + ","@ + dec_chars(value)
}

/// Writes one `system,operation,count` row.
pub fn csv_row(name: &str, op: &str, value: u128) -> (r: String)
    ensures
        r@ == csv_row_chars(name@, op@, value as nat),
{
    let mut s: String = name.to_owned();
    s.append(",");
    s.append(op);
    s.append(",");
    s.append(crate::numfmt::u128_to_string(value).as_str());
    s
}

} // verus!
