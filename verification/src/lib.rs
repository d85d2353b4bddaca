//! Generation of immediate-mode GUI presentation code for annotated
//! struct and enum definitions.
//!
//! The pipeline has three layers: an attribute model that parses the
//! `imgui_presentation` annotation mini-language, a shape inspector
//! that classifies a type definition into field or variant
//! descriptors, and backend emitters that produce a structured
//! description of the read-only and mutable rendering procedures for
//! each selected GUI backend.

use vstd::prelude::*;

pub mod attributes;
pub mod canonical;
pub mod emit;
pub mod error;
pub mod laws;
pub mod shape;
pub mod strutil;

use crate::strutil::ci_eq;
use crate::strutil::str_eq_ci;
use vstd::string::StringExecFns;

verus! {

/// The textual yes/no label companion of a boolean toggle widget.
pub fn bool_to_string(value: bool) -> (r: &'static str)
    ensures
        value ==> r@ == "yes"@,
        !value ==> r@ == "no"@,
{
    if value {
        "yes"
    } else {
        "no"
    }
}

/// A GUI backend that presentation code can be generated for.
#[derive(Debug, Copy, Clone, PartialEq, Eq, Structural, Hash)]
pub enum Backend {
    /// The ImGui immediate-mode toolkit.
    Imgui,
    /// The egui immediate-mode toolkit.
    Egui,
}

/// The backend whose name `s` is, compared case-insensitively.
pub open spec fn spec_parse_backend(s: Seq<char>) -> Option<Backend> {
    if ci_eq(s, "imgui"@) {
        Some(Backend::Imgui)
    } else if ci_eq(s, "egui"@) {
        Some(Backend::Egui)
    } else {
        None
    }
}

impl Backend {
    /// Parses a backend name; anything but `imgui` or `egui` is rejected.
    pub fn from_str(s: &str) -> (r: Result<Backend, String>)
        ensures
            match r {
                Ok(b) => spec_parse_backend(s@) == Some(b),
                Err(e) => spec_parse_backend(s@) is None && e@ == s@ + " is an unknown backend."@,
            },
    {
        if str_eq_ci(s, "imgui") {
            Ok(Backend::Imgui)
        } else if str_eq_ci(s, "egui") {
            Ok(Backend::Egui)
        } else {
            let mut m = String::from_str(s);
            m.append(" is an unknown backend.");
            Err(m)
        }
    }
}

/// The width and height of the viewport used by the GUI backend.
#[derive(Debug, Copy, Clone, PartialEq, Eq, Hash)]
pub struct Extent {
    /// The width of the viewport (in pixels).
    pub width: u16,
    /// The height of the viewport (in pixels).
    pub height: u16,
}

} // verus!
