//! A decoder for MSVC-style compiler-mangled C++ symbol names.
//!
//! The entry point is [`demangle`]: it turns a mangled symbol such as
//! `"?x@@YAXMH@Z"` into the C++ declaration it encodes, here
//! `"void x(float,int)"`. Decoding is a pure, single-pass pipeline: the
//! input bytes run through a recursive-descent decoder into a declaration
//! tree, and a two-phase prefix/suffix printer renders the tree back to a
//! correctly-parenthesized declarator string. The whole pipeline is
//! specified by one function of the input bytes, `sp_demangle`, so equal
//! inputs always give equal results.
use vstd::prelude::*;

pub mod ast;
pub mod error;
pub mod flags;
pub mod model;
pub mod parser;
pub mod printer;

use crate::ast::{names_v, type_v, NameV, TypeV};
use crate::error::{Error, ErrorKind, SpErr};
use crate::model::{sp_parse, SpOut};
use crate::parser::ParserState;
use crate::printer::{serialize, sp_serialize};
use vstd::string::StringSliceAdditionalSpecFns;
use vstd::utf8::{decode_utf8, encode_utf8_decode_utf8, valid_utf8};

verus! {

/// The model of a whole demangling call: decode the input bytes with an
/// empty name cache, print the decoded tree, and re-validate the printed
/// bytes as text at the point they become the output string. Identifier
/// fragments are copied into the output verbatim, so a fragment that is
/// not valid UTF-8 surfaces here as a text-decoding failure.
pub open spec fn sp_demangle(bytes: Seq<u8>) -> Result<Seq<u8>, SpErr> {
    match sp_parse(bytes, Seq::empty()) {
        SpOut::Good { v, rem: _, names: _ } => {
            let out = sp_serialize(v.0, v.1);
            if valid_utf8(out) {
                Ok(out)
            } else {
                Err(SpErr { kind: ErrorKind::TextDecodingFailure, off: out })
            }
        },
        SpOut::Bad { k, off } => Err(SpErr { kind: k, off }),
    }
}

/// What a result of `demangle` must be for the given input bytes: the
/// text of the printed declaration the model names, or exactly the
/// failure it names.
pub open spec fn demangle_matches(bytes: Seq<u8>, r: Result<String, Error>) -> bool {
    match r {
        Ok(s) => match sp_demangle(bytes) {
            Ok(out) => s@ == decode_utf8(out),
            Err(_) => false,
        },
        Err(e) => match sp_demangle(bytes) {
            Ok(_) => false,
            Err(se) => e.kind == se.kind && e.offender@ == se.off,
        },
    }
}

/// Relies on str::from_utf8: accepts exactly the byte runs that are valid
/// UTF-8 and views them as the text they encode.
#[verifier::external_body]
fn bytes_as_str(v: &[u8]) -> (r: Option<&str>)
    ensures
        match r {
            Some(s) => valid_utf8(v@) && s.spec_bytes() == v@,
            None => !valid_utf8(v@),
        },
{
    std::str::from_utf8(v).ok()
}

/// Decode one mangled symbol to the C++ declaration it encodes.
///
/// The result is a function of the input bytes alone: the model
/// `sp_demangle` names the exact output string on success and the exact
/// failure otherwise. An error is returned exactly when parsing fails —
/// that parse failure is handed back unchanged — or when the printed
/// bytes are not valid UTF-8 text; no partial output is ever returned.
pub fn demangle(input: &str) -> (r: Result<String, Error>)
    ensures
        demangle_matches(input.spec_bytes(), r),
{
    let bytes: &[u8] = input.as_bytes();
    let state = ParserState { input: bytes, memorized_names: Vec::new() };
    proof {
        assert(state.names() =~= Seq::<Seq<u8>>::empty());
        assert(state.wf());
    }
    let parse_result = match state.parse() {
        Ok(pr) => pr,
        Err(e) => {
            return Err(e);
        },
    };
    let mut s: Vec<u8> = Vec::new();
    proof {
        assert(s@ =~= Seq::<u8>::empty());
    }
    serialize(&mut s, &parse_result);
    proof {
        assert(s@ == sp_serialize(
            names_v(parse_result.symbol.names@),
            type_v(parse_result.symbol_type),
        ));
    }
    match bytes_as_str(s.as_slice()) {
        Some(text) => {
            proof {
                encode_utf8_decode_utf8(text@);
            }
            Ok(text.to_owned())
        },
        None => Err(Error::new(ErrorKind::TextDecodingFailure, s)),
    }
}

/// Determinism: two results that both meet `demangle`'s contract for the
/// same input bytes are the same result — the same declaration string on
/// success, the same failure kind and offending remainder otherwise.
pub proof fn lemma_demangle_deterministic(
    bytes: Seq<u8>,
    r1: Result<String, Error>,
    r2: Result<String, Error>,
)
    requires
        demangle_matches(bytes, r1),
        demangle_matches(bytes, r2),
    ensures
        match (r1, r2) {
            (Ok(s1), Ok(s2)) => s1@ == s2@,
            (Err(e1), Err(e2)) => e1.kind == e2.kind && e1.offender@ == e2.offender@,
            _ => false,
        },
{
}

/// Round-trip stability: printing the same decoded tree twice yields
/// byte-identical output — the printer is a function of the tree alone.
pub proof fn lemma_print_stable(symbol: Seq<NameV>, t: TypeV, out1: Seq<u8>, out2: Seq<u8>)
    requires
        out1 == sp_serialize(symbol, t),
        out2 == sp_serialize(symbol, t),
    ensures
        out1 == out2,
{
}

} // verus!
