//! The ways in which building a schema fails.

use vstd::prelude::*;
use vstd::string::StringExecFns;

verus! {

/// What to do when a descriptor asks for a type table entry under a name
/// that another descriptor holds already.
#[derive(Clone, Copy, Debug, PartialEq, Eq, Structural)]
pub enum CollisionPolicy {
    /// Fail and report both descriptors.
    Strict,
    /// Give the later descriptor the name with a numeric suffix. Where that
    /// key is taken, the collision is reported under that key.
    Suffix,
}

/// A failure of schema generation. None is transient: each one is a defect
/// of the descriptors or of the calls that were made.
#[derive(Debug)]
pub enum SchemaError {
    /// Two different descriptors gave the same name, and no free name could
    /// be had for the second one; or two named types have the same name
    /// after shortening.
    NameCollision { key: String, first: String, second: String },
    /// An optional value was asked for of a shape whose only value is null,
    /// so that the absent value and the present one could not be told apart.
    ImpossibleOptional { origin: String },
    /// An entry was added under a label that is in use.
    DuplicateEntry { label: String },
    /// The schema was asked for of a generator that has no validator for the
    /// documents.
    NoDocument,
    /// fog-pack refused the finished schema.
    Assembler(fog_pack::error::Error),
}

/// The text of the message of an error: what went wrong, and for which name
/// or descriptor.
pub open spec fn message_text(e: SchemaError) -> Seq<char> {
    match e {
        SchemaError::NameCollision { key, first, second } => "type name "@ + key@
            + " is given by two descriptors: "@ + first@ + " and "@ + second@,
        SchemaError::ImpossibleOptional { origin } =>
            "an optional null cannot be told from an absent value, in "@ + origin@,
        SchemaError::DuplicateEntry { label } => "entry label "@ + label@ + " is already in use"@,
        SchemaError::NoDocument => "the schema has no document validator"@,
        SchemaError::Assembler(_) => "the schema document could not be built"@,
    }
}

impl SchemaError {
    /// A text that names what went wrong and for which name or descriptor.
    pub fn message(&self) -> (text: String)
        ensures
            text@ == message_text(*self),
    {
        match self {
            SchemaError::NameCollision { key, first, second } => {
                let mut text: String = String::from_str("type name ");
                text.append(key.as_str());
                text.append(" is given by two descriptors: ");
                text.append(first.as_str());
                text.append(" and ");
                text.append(second.as_str());
                text
            },
            SchemaError::ImpossibleOptional { origin } => {
                let mut text: String = String::from_str(
                    "an optional null cannot be told from an absent value, in ",
                );
                text.append(origin.as_str());
                text
            },
            SchemaError::DuplicateEntry { label } => {
                let mut text: String = String::from_str("entry label ");
                text.append(label.as_str());
                text.append(" is already in use");
                text
            },
            SchemaError::NoDocument => String::from_str("the schema has no document validator"),
            SchemaError::Assembler(_) => String::from_str("the schema document could not be built"),
        }
    }
}

} // verus!
