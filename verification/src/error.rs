//! Generation-time failures. Every failure is surfaced as a
//! diagnostic in place of generated code; nothing panics at the
//! runtime of the generated artifact.

use crate::attributes::message_model;
use crate::attributes::AttributeErrorModel;
use crate::attributes::AttributeErrors;
use vstd::prelude::*;
use vstd::string::*;

verus! {

/// Why a generation request was rejected.
#[derive(Debug, Clone, PartialEq, Eq)]
pub enum GenError {
    /// One or more annotations could not be parsed; all of them are
    /// reported together.
    Attributes(AttributeErrors),
    /// The `skip` flag stands on a whole type; it is only meaningful
    /// on members.
    SkipOnType,
    /// The type has no storable fields and no variants at all.
    EmptyType,
    /// A field's declared type is not expressible as a simple path;
    /// the payload is the declared type text.
    ComplexType(String),
    /// The enumeration has a payload-carrying variant.
    NonPlainEnum,
}

/// The mathematical model of a [`GenError`].
pub enum GenErrorModel {
    /// Model of [`GenError::Attributes`].
    Attributes(Seq<AttributeErrorModel>),
    /// Model of [`GenError::SkipOnType`].
    SkipOnType,
    /// Model of [`GenError::EmptyType`].
    EmptyType,
    /// Model of [`GenError::ComplexType`].
    ComplexType(Seq<char>),
    /// Model of [`GenError::NonPlainEnum`].
    NonPlainEnum,
}

impl View for GenError {
    type V = GenErrorModel;

    open spec fn view(&self) -> GenErrorModel {
        match self {
            GenError::Attributes(e) => GenErrorModel::Attributes(e@),
            GenError::SkipOnType => GenErrorModel::SkipOnType,
            GenError::EmptyType => GenErrorModel::EmptyType,
            GenError::ComplexType(t) => GenErrorModel::ComplexType(t@),
            GenError::NonPlainEnum => GenErrorModel::NonPlainEnum,
        }
    }
}

/// The diagnostic text of a generation failure.
pub open spec fn gen_message_model(e: GenErrorModel) -> Seq<char> {
    match e {
        GenErrorModel::Attributes(fs) => message_model(fs),
        GenErrorModel::SkipOnType => "Structs shouldn't have the #[imgui_presentation(skip)] attribute."@,
        GenErrorModel::EmptyType => "Deriving ImguiPresentation for an empty type is pointless."@,
        GenErrorModel::ComplexType(t) => "Complex types aren't supported yet: "@ + t,
        GenErrorModel::NonPlainEnum => "Only POD enums are supported as of this moment."@,
    }
}

impl GenError {
    /// The human-readable diagnostic for this failure.
    pub fn message(&self) -> (r: String)
        ensures
            r@ == gen_message_model(self@),
    {
        match self {
            GenError::Attributes(e) => e.message(),
            GenError::SkipOnType => String::from_str(
                "Structs shouldn't have the #[imgui_presentation(skip)] attribute.",
            ),
            GenError::EmptyType => String::from_str(
                "Deriving ImguiPresentation for an empty type is pointless.",
            ),
            GenError::ComplexType(t) => {
                let mut m = String::from_str("Complex types aren't supported yet: ");
                m.append(t.as_str());
                m
            },
            GenError::NonPlainEnum => String::from_str(
                "Only POD enums are supported as of this moment.",
            ),
        }
    }
}

} // verus!
