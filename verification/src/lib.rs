//! A strongly-typed, verified parser for Trello board exports.
//!
//! A Trello export is a single JSON document describing one board with its
//! cards, attachments and preview images.  The library decodes the document,
//! validates it against the board schema, and returns an immutable
//! [`model::Board`] aggregate; fields whose format is not documented are
//! accepted and discarded rather than guessed at.

pub mod decode;
pub mod error;
pub mod laws;
pub mod model;
pub mod num;
pub mod schema;
pub mod shims;
pub mod text;
pub mod value;

use vstd::prelude::*;

use crate::error::{ErrV, ParseError};
use crate::model::{Board, BoardV};
use crate::schema::sp_board;
use crate::text::sp_doc;
use vstd::string::StrSliceExecFns;

verus! {

/// What parsing a character sequence yields: the model of the board the
/// document describes, or the first error.
pub open spec fn sp_parse_chars(s: Seq<char>) -> Result<BoardV, ErrV> {
    match sp_doc(s) {
        Err(p) => Err(ErrV::Syntax(p)),
        Ok(v) => match sp_board(v) {
            Ok(b) => Ok(b),
            Err(e) => Err(ErrV::Schema(e)),
        },
    }
}

/// What parsing a byte stream yields: text that is not UTF-8 is an encoding
/// error; otherwise the decoded characters are parsed.
pub open spec fn sp_parse(bytes: Seq<u8>) -> Result<BoardV, ErrV> {
    if !vstd::utf8::valid_utf8(bytes) {
        Err(ErrV::Encoding)
    } else {
        sp_parse_chars(vstd::utf8::decode_utf8(bytes))
    }
}

/// The characters of a string, one by one.
fn chars_vec(s: &str) -> (r: Vec<char>)
    ensures
        r@ == s@,
{
    let n = s.unicode_len();
    let mut v: Vec<char> = Vec::new();
    let mut i: usize = 0;
    while i < n
        invariant
            i <= n,
            n == s@.len(),
            v@ =~= s@.subrange(0, i as int),
        decreases n - i,
    {
        let c = s.get_char(i);
        v.push(c);
        proof {
            assert(v@ =~= s@.subrange(0, i as int + 1));
        }
        i = i + 1;
    }
    proof {
        assert(v@ =~= s@);
    }
    v
}

/// Parses one export document from text.
pub fn parse_str(s: &str) -> (r: Result<Board, ParseError>)
    ensures
        match r {
            Ok(b) => sp_parse_chars(s@) == Ok::<_, ErrV>(b.v()),
            Err(e) => sp_parse_chars(s@) == Err::<BoardV, _>(e.v()),
        },
{
    let cs = chars_vec(s);
    match crate::text::p_doc(&cs) {
        Err(pos) => Err(ParseError::Syntax(pos)),
        Ok(v) => match crate::decode::p_board(v) {
            Ok(b) => Ok(b),
            Err(e) => Err(ParseError::Schema(e)),
        },
    }
}

/// Parses one export document from its bytes: decode as UTF-8, read the
/// JSON document, validate it against the board schema.
pub fn parse_json(bytes: &[u8]) -> (r: Result<Board, ParseError>)
    ensures
        match r {
            Ok(b) => sp_parse(bytes@) == Ok::<_, ErrV>(b.v()),
            Err(e) => sp_parse(bytes@) == Err::<BoardV, _>(e.v()),
        },
{
    match crate::shims::utf8_to_str(bytes) {
        None => Err(ParseError::Encoding),
        Some(s) => parse_str(s),
    }
}

} // verus!
