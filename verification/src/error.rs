//! The error taxonomy of a parse: input that is not text, text that is not
//! JSON, and JSON that does not fit the board schema.

use vstd::prelude::*;

use crate::value::JsonV;

verus! {

/// The entity whose field a schema error names, with enough indices to find
/// it in the document.
#[derive(Debug, PartialEq, Eq, Structural, Clone, Copy)]
pub enum Entity {
    Board,
    Labels,
    Card(usize),
    Badges(usize),
    Cover(usize),
    CoverImage(usize, usize),
    Attachment(usize, usize),
    Preview(usize, usize, usize),
}

/// The shape a field was declared with.
#[derive(Debug, PartialEq, Eq, Structural, Clone, Copy)]
pub enum Expected {
    BoolShape,
    IntShape,
    NumShape,
    StrShape,
    StrOrNull,
    StrArray,
    ObjShape,
    ArrShape,
    NoSuchKey,
}

/// The shape a field was observed with.
#[derive(Debug, PartialEq, Eq, Structural, Clone, Copy)]
pub enum Found {
    NullKind,
    BoolKind,
    NumberKind,
    StrKind,
    ArrKind,
    ObjKind,
    Absent,
    NotInteger,
    OutOfRange,
    Present,
}

/// The observed shape of a JSON value.
pub open spec fn found_of(v: JsonV) -> Found {
    match v {
        JsonV::Null => Found::NullKind,
        JsonV::Bool(_) => Found::BoolKind,
        JsonV::Num(_) => Found::NumberKind,
        JsonV::Str(_) => Found::StrKind,
        JsonV::Arr(_) => Found::ArrKind,
        JsonV::Obj(_) => Found::ObjKind,
    }
}

/// A violation of the board schema: which field of which entity, what was
/// declared and what was observed.
#[derive(Debug, PartialEq)]
pub struct SchemaError {
    pub at: Entity,
    pub field: String,
    pub expected: Expected,
    pub found: Found,
}

/// The mathematical shape of a [`SchemaError`].
pub struct SchemaErrV {
    pub at: Entity,
    pub field: Seq<char>,
    pub expected: Expected,
    pub found: Found,
}

impl SchemaError {
    /// The mathematical value of this error.
    pub open spec fn v(self) -> SchemaErrV {
        SchemaErrV { at: self.at, field: self.field@, expected: self.expected, found: self.found }
    }
}

/// Why a parse failed.
#[derive(Debug, PartialEq)]
pub enum ParseError {
    /// The input bytes are not well-formed UTF-8.
    Encoding,
    /// The text is not a single well-formed JSON document; carries the
    /// position of the first offending character.
    Syntax(usize),
    /// The document does not fit the board schema.
    Schema(SchemaError),
}

/// The mathematical shape of a [`ParseError`].
pub enum ErrV {
    Encoding,
    Syntax(int),
    Schema(SchemaErrV),
}

impl ParseError {
    /// The mathematical value of this error.
    pub open spec fn v(self) -> ErrV {
        match self {
            ParseError::Encoding => ErrV::Encoding,
            ParseError::Syntax(p) => ErrV::Syntax(p as int),
            ParseError::Schema(e) => ErrV::Schema(e.v()),
        }
    }
}

} // verus!
