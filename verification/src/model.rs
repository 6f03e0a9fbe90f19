//! The functional model of the mangled-symbol grammar.
//!
//! `sp_parse` and its helpers map the remaining input bytes (and the name
//! back-reference cache) to exactly one outcome. The executable decoder in
//! `parser` is proved to return precisely what this model says, which pins
//! down determinism: the result is a function of the input bytes alone.
use vstd::prelude::*;

use crate::ast::{NameV, Op, TypeV};
use crate::error::{Error, ErrorKind, SpErr};
use crate::flags::{spec_sc, CallingConv, FuncClass, StorageClass};

verus! {

/// Outcome of a model step that neither reads nor writes the name cache:
/// a value and the remaining input, or a failure.
pub enum SpRes<T> {
    Good { v: T, rem: Seq<u8> },
    Bad { k: ErrorKind, off: Seq<u8> },
}

/// Outcome of a model step that may consult or grow the name cache.
pub enum SpOut<T> {
    Good { v: T, rem: Seq<u8>, names: Seq<Seq<u8>> },
    Bad { k: ErrorKind, off: Seq<u8> },
}

impl<T> SpRes<T> {
    pub open spec fn err(self) -> SpErr {
        SpErr { kind: self->k, off: self->off }
    }
}

impl<T> SpOut<T> {
    pub open spec fn err(self) -> SpErr {
        SpErr { kind: self->k, off: self->off }
    }
}

pub open spec fn is_digit_byte(b: u8) -> bool {
    ('0' as u8) <= b && b <= ('9' as u8)
}

pub open spec fn is_hex_letter(b: u8) -> bool {
    ('A' as u8) <= b && b <= ('P' as u8)
}

pub open spec fn begins1(rem: Seq<u8>, a: u8) -> bool {
    rem.len() >= 1 && rem[0] == a
}

pub open spec fn begins2(rem: Seq<u8>, a: u8, b: u8) -> bool {
    rem.len() >= 2 && rem[0] == a && rem[1] == b
}

pub open spec fn begins3(rem: Seq<u8>, a: u8, b: u8, c: u8) -> bool {
    rem.len() >= 3 && rem[0] == a && rem[1] == b && rem[2] == c
}

/// The index of the first `@` in `rem`, if any.
pub open spec fn at_pos(rem: Seq<u8>) -> Option<int>
    decreases rem.len(),
{
    if rem.len() == 0 {
        None
    } else if rem[0] == ('@' as u8) {
        Some(0)
    } else {
        match at_pos(rem.skip(1)) {
            Some(i) => Some(i + 1),
            None => None,
        }
    }
}

pub proof fn lemma_at_pos(rem: Seq<u8>)
    ensures
        match at_pos(rem) {
            Some(i) => 0 <= i < rem.len() && rem[i] == ('@' as u8) && forall|j: int|
                0 <= j < i ==> rem[j] != ('@' as u8),
            None => forall|j: int| 0 <= j < rem.len() ==> rem[j] != ('@' as u8),
        },
    decreases rem.len(),
{
    if rem.len() > 0 && rem[0] != ('@' as u8) {
        let s = rem.skip(1);
        lemma_at_pos(s);
        match at_pos(s) {
            Some(i) => {
                assert(rem[i + 1] == s[i]);
                assert forall|j: int| 0 <= j < i + 1 implies rem[j] != ('@' as u8) by {
                    if j > 0 {
                        assert(rem[j] == s[j - 1]);
                    }
                }
            },
            None => {
                assert forall|j: int| 0 <= j < rem.len() implies rem[j] != ('@' as u8) by {
                    if j > 0 {
                        assert(rem[j] == s[j - 1]);
                    }
                }
            },
        }
    }
}

/// Reading an identifier fragment: the raw bytes up to the next `@`.
/// Succeeds exactly when a terminator is present; the bytes themselves
/// are not inspected here — text validity is checked where the decoded
/// output is assembled.
pub open spec fn sp_string(rem: Seq<u8>) -> SpRes<Seq<u8>> {
    match at_pos(rem) {
        None => SpRes::Bad { k: ErrorKind::UnexpectedEndOfInput, off: rem },
        Some(i) => SpRes::Good { v: rem.take(i), rem: rem.skip(i + 1) },
    }
}

/// Memorizing a name: the first ten distinct names are cached, later or
/// repeated ones are not. This keeps the cache bounded at ten entries.
pub open spec fn sp_memorize(names: Seq<Seq<u8>>, s: Seq<u8>) -> Seq<Seq<u8>> {
    if names.len() < 10 && !names.contains(s) {
        names.push(s)
    } else {
        names
    }
}

/// The signed 32-bit value whose two's-complement image is `u` (with
/// `0 <= u < 2^32`).
pub open spec fn as_i32(u: int) -> int {
    if u < 0x8000_0000 {
        u
    } else {
        u - 0x1_0000_0000
    }
}

/// The hex-digit run of a number encoding: letters `A`-`P` accumulate
/// big-endian nibbles (wrapping at 32 bits, as the accumulator does) until
/// the terminating `@`.
pub open spec fn sp_hex(orig: Seq<u8>, rem: Seq<u8>, acc: int) -> SpRes<int>
    decreases rem.len(),
{
    if rem.len() == 0 {
        SpRes::Bad { k: ErrorKind::UnterminatedNumber, off: orig }
    } else if rem[0] == ('@' as u8) {
        SpRes::Good { v: acc, rem: rem.skip(1) }
    } else if is_hex_letter(rem[0]) {
        sp_hex(orig, rem.skip(1), (acc * 16 + (rem[0] - ('A' as u8))) % 0x1_0000_0000)
    } else {
        SpRes::Bad { k: ErrorKind::UnterminatedNumber, off: orig }
    }
}

/// A number: an optional `?` negation, then either one digit encoding
/// `digit + 1`, or a hex run terminated by `@`. The value is the signed
/// 32-bit result, wrapping where the accumulator would.
pub open spec fn sp_number(rem: Seq<u8>) -> SpRes<int> {
    let neg = begins1(rem, ('?' as u8));
    let r1 = if neg {
        rem.skip(1)
    } else {
        rem
    };
    if r1.len() > 0 && is_digit_byte(r1[0]) {
        let v = (r1[0] - ('0' as u8)) + 1;
        SpRes::Good {
            v: if neg {
                -v
            } else {
                v
            },
            rem: r1.skip(1),
        }
    } else {
        match sp_hex(r1, r1, 0) {
            SpRes::Good { v: acc, rem: r2 } => {
                let u = if neg {
                    (0x1_0000_0000 - acc) % 0x1_0000_0000
                } else {
                    acc
                };
                SpRes::Good { v: as_i32(u), rem: r2 }
            },
            SpRes::Bad { k, off } => SpRes::Bad { k, off },
        }
    }
}

/// The one-letter operator codes.
pub open spec fn op1_of(b: u8) -> Option<Op> {
    if b == ('0' as u8) {
        Some(Op::Ctor)
    } else if b == ('1' as u8) {
        Some(Op::Dtor)
    } else if b == ('2' as u8) {
        Some(Op::New)
    } else if b == ('3' as u8) {
        Some(Op::Delete)
    } else if b == ('4' as u8) {
        Some(Op::Assign)
    } else if b == ('5' as u8) {
        Some(Op::Shr)
    } else if b == ('6' as u8) {
        Some(Op::Shl)
    } else if b == ('7' as u8) {
        Some(Op::Not)
    } else if b == ('8' as u8) {
        Some(Op::Equal)
    } else if b == ('9' as u8) {
        Some(Op::NotEqual)
    } else if b == ('A' as u8) {
        Some(Op::Subscript)
    } else if b == ('C' as u8) {
        Some(Op::Arrow)
    } else if b == ('D' as u8) {
        Some(Op::Deref)
    } else if b == ('E' as u8) {
        Some(Op::Increment)
    } else if b == ('F' as u8) {
        Some(Op::Decrement)
    } else if b == ('G' as u8) {
        Some(Op::Subtract)
    } else if b == ('H' as u8) {
        Some(Op::Add)
    } else if b == ('I' as u8) {
        Some(Op::AddressOf)
    } else if b == ('J' as u8) {
        Some(Op::ArrowStar)
    } else if b == ('K' as u8) {
        Some(Op::Divide)
    } else if b == ('L' as u8) {
        Some(Op::Modulus)
    } else if b == ('M' as u8) {
        Some(Op::Less)
    } else if b == ('N' as u8) {
        Some(Op::LessEqual)
    } else if b == ('O' as u8) {
        Some(Op::Greater)
    } else if b == ('P' as u8) {
        Some(Op::GreaterEqual)
    } else if b == ('Q' as u8) {
        Some(Op::Comma)
    } else if b == ('R' as u8) {
        Some(Op::Call)
    } else if b == ('S' as u8) {
        Some(Op::BitNot)
    } else if b == ('T' as u8) {
        Some(Op::BitXor)
    } else if b == ('U' as u8) {
        Some(Op::BitOr)
    } else if b == ('V' as u8) {
        Some(Op::LogicalAnd)
    } else if b == ('W' as u8) {
        Some(Op::LogicalOr)
    } else if b == ('X' as u8) {
        Some(Op::MulAssign)
    } else if b == ('Y' as u8) {
        Some(Op::AddAssign)
    } else if b == ('Z' as u8) {
        Some(Op::SubAssign)
    } else {
        None
    }
}

/// The `_`-prefixed operator codes, except `__L` (co_await).
pub open spec fn op2_of(b: u8) -> Option<Op> {
    if b == ('0' as u8) {
        Some(Op::DivAssign)
    } else if b == ('1' as u8) {
        Some(Op::ModAssign)
    } else if b == ('2' as u8) {
        Some(Op::ShrAssign)
    } else if b == ('3' as u8) {
        Some(Op::ShlAssign)
    } else if b == ('4' as u8) {
        Some(Op::AndAssign)
    } else if b == ('5' as u8) {
        Some(Op::OrAssign)
    } else if b == ('6' as u8) {
        Some(Op::XorAssign)
    } else if b == ('U' as u8) {
        Some(Op::NewArray)
    } else if b == ('V' as u8) {
        Some(Op::DeleteArray)
    } else {
        None
    }
}

/// An operator code: one letter, or `_` plus one letter, or `__L`.
pub open spec fn sp_operator_name(rem: Seq<u8>) -> SpRes<Op> {
    if rem.len() == 0 {
        SpRes::Bad { k: ErrorKind::UnexpectedEndOfInput, off: rem }
    } else if rem[0] == ('_' as u8) {
        let r1 = rem.skip(1);
        if r1.len() == 0 {
            SpRes::Bad { k: ErrorKind::UnexpectedEndOfInput, off: r1 }
        } else if r1[0] == ('_' as u8) {
            if begins1(r1.skip(1), ('L' as u8)) {
                SpRes::Good { v: Op::CoAwait, rem: r1.skip(2) }
            } else {
                SpRes::Bad { k: ErrorKind::UnknownOperatorCode, off: rem }
            }
        } else {
            match op2_of(r1[0]) {
                Some(op) => SpRes::Good { v: op, rem: r1.skip(1) },
                None => SpRes::Bad { k: ErrorKind::UnknownOperatorCode, off: rem },
            }
        }
    } else {
        match op1_of(rem[0]) {
            Some(op) => SpRes::Good { v: op, rem: rem.skip(1) },
            None => SpRes::Bad { k: ErrorKind::UnknownOperatorCode, off: rem },
        }
    }
}

/// An operator segment: the code, then — unless `@` follows — the echoed
/// identifier, which is memorized.
pub open spec fn sp_operator(rem: Seq<u8>, names: Seq<Seq<u8>>) -> SpOut<(Op, Option<Seq<u8>>)> {
    match sp_operator_name(rem) {
        SpRes::Bad { k, off } => SpOut::Bad { k, off },
        SpRes::Good { v: op, rem: r1 } => {
            if begins1(r1, ('@' as u8)) {
                SpOut::Good { v: (op, None), rem: r1, names }
            } else {
                match sp_string(r1) {
                    SpRes::Bad { k, off } => SpOut::Bad { k, off },
                    SpRes::Good { v: s, rem: r2 } => SpOut::Good {
                        v: (op, Some(s)),
                        rem: r2,
                        names: sp_memorize(names, s),
                    },
                }
            }
        },
    }
}

/// The storage-class byte table (pointee qualifiers).
pub open spec fn sc_of(b: u8) -> Option<StorageClass> {
    if b == ('A' as u8) {
        Some(spec_sc(false, false, false))
    } else if b == ('B' as u8) {
        Some(spec_sc(true, false, false))
    } else if b == ('C' as u8) {
        Some(spec_sc(false, true, false))
    } else if b == ('D' as u8) {
        Some(spec_sc(true, true, false))
    } else if b == ('E' as u8) {
        Some(spec_sc(false, false, true))
    } else if b == ('F' as u8) {
        Some(spec_sc(true, false, true))
    } else if b == ('G' as u8) {
        Some(spec_sc(false, true, true))
    } else if b == ('H' as u8) {
        Some(spec_sc(true, true, true))
    } else {
        None
    }
}

/// The access-qualifier byte table (the `A`-`D` subset).
pub open spec fn acc_of(b: u8) -> Option<StorageClass> {
    if b == ('A' as u8) {
        Some(spec_sc(false, false, false))
    } else if b == ('B' as u8) {
        Some(spec_sc(true, false, false))
    } else if b == ('C' as u8) {
        Some(spec_sc(false, true, false))
    } else if b == ('D' as u8) {
        Some(spec_sc(true, true, false))
    } else {
        None
    }
}

/// A storage class: one byte of the table, or nothing.
pub open spec fn sp_storage_class(rem: Seq<u8>) -> (StorageClass, Seq<u8>) {
    if rem.len() > 0 && sc_of(rem[0]) is Some {
        (sc_of(rem[0])->0, rem.skip(1))
    } else {
        (spec_sc(false, false, false), rem)
    }
}

/// A member-function access qualifier: one byte of the `A`-`D` subset, or
/// nothing.
pub open spec fn sp_func_access_class(rem: Seq<u8>) -> (StorageClass, Seq<u8>) {
    if rem.len() > 0 && acc_of(rem[0]) is Some {
        (acc_of(rem[0])->0, rem.skip(1))
    } else {
        (spec_sc(false, false, false), rem)
    }
}

/// A return-value qualifier: nothing unless a `?` marker introduces one
/// byte of the `A`-`D` subset.
pub open spec fn sp_storage_class_for_return(rem: Seq<u8>) -> SpRes<StorageClass> {
    if !begins1(rem, ('?' as u8)) {
        SpRes::Good { v: spec_sc(false, false, false), rem }
    } else {
        let r1 = rem.skip(1);
        if r1.len() == 0 {
            SpRes::Bad { k: ErrorKind::UnexpectedEndOfInput, off: r1 }
        } else {
            match acc_of(r1[0]) {
                Some(sc) => SpRes::Good { v: sc, rem: r1.skip(1) },
                None => SpRes::Bad { k: ErrorKind::UnknownStorageClassByte, off: r1 },
            }
        }
    }
}

/// The calling-convention byte table.
pub open spec fn conv_of(b: u8) -> Option<CallingConv> {
    if b == ('A' as u8) {
        Some(CallingConv::Cdecl)
    } else if b == ('B' as u8) {
        Some(CallingConv::Cdecl)
    } else if b == ('C' as u8) {
        Some(CallingConv::Pascal)
    } else if b == ('E' as u8) {
        Some(CallingConv::Thiscall)
    } else if b == ('G' as u8) {
        Some(CallingConv::Stdcall)
    } else if b == ('I' as u8) {
        Some(CallingConv::Fastcall)
    } else {
        None
    }
}

pub open spec fn sp_calling_conv(rem: Seq<u8>) -> SpRes<CallingConv> {
    if rem.len() == 0 {
        SpRes::Bad { k: ErrorKind::UnexpectedEndOfInput, off: rem }
    } else {
        match conv_of(rem[0]) {
            Some(c) => SpRes::Good { v: c, rem: rem.skip(1) },
            None => SpRes::Bad { k: ErrorKind::UnknownCallingConventionByte, off: rem },
        }
    }
}

/// The function-class byte table.
pub open spec fn fc_of(b: u8) -> Option<FuncClass> {
    if b == ('A' as u8) {
        Some(spec_fc_acc(false, false, true, false, false, false))
    } else if b == ('B' as u8) {
        Some(spec_fc_acc(false, false, true, false, false, true))
    } else if b == ('C' as u8) {
        Some(spec_fc_acc(false, false, true, true, false, false))
    } else if b == ('D' as u8) {
        Some(spec_fc_acc(false, false, true, true, false, false))
    } else if b == ('E' as u8) {
        Some(spec_fc_acc(false, false, true, false, true, false))
    } else if b == ('F' as u8) {
        Some(spec_fc_acc(false, false, true, false, true, false))
    } else if b == ('I' as u8) {
        Some(spec_fc_acc(false, true, false, false, false, false))
    } else if b == ('J' as u8) {
        Some(spec_fc_acc(false, true, false, false, false, true))
    } else if b == ('K' as u8) {
        Some(spec_fc_acc(false, true, false, true, false, false))
    } else if b == ('L' as u8) {
        Some(spec_fc_acc(false, true, false, true, false, true))
    } else if b == ('M' as u8) {
        Some(spec_fc_acc(false, true, false, false, true, false))
    } else if b == ('N' as u8) {
        Some(spec_fc_acc(false, true, false, false, true, true))
    } else if b == ('Q' as u8) {
        Some(spec_fc_acc(true, false, false, false, false, false))
    } else if b == ('R' as u8) {
        Some(spec_fc_acc(true, false, false, false, false, true))
    } else if b == ('S' as u8) {
        Some(spec_fc_acc(true, false, false, true, false, false))
    } else if b == ('T' as u8) {
        Some(spec_fc_acc(true, false, false, true, false, true))
    } else if b == ('U' as u8) {
        Some(spec_fc_acc(true, false, false, false, true, false))
    } else if b == ('V' as u8) {
        Some(spec_fc_acc(true, false, false, false, true, true))
    } else if b == ('Y' as u8) {
        Some(spec_fc_global(false))
    } else if b == ('Z' as u8) {
        Some(spec_fc_global(true))
    } else {
        None
    }
}

/// The global function classes.
pub open spec fn spec_fc_global(is_far: bool) -> FuncClass {
    FuncClass {
        is_public: false,
        is_protected: false,
        is_private: false,
        is_global: true,
        is_static: false,
        is_virtual: false,
        is_far,
    }
}

/// A function class from access, static/virtual and far flags.
pub open spec fn spec_fc_acc(
    is_public: bool,
    is_protected: bool,
    is_private: bool,
    is_static: bool,
    is_virtual: bool,
    is_far: bool,
) -> FuncClass {
    FuncClass {
        is_public,
        is_protected,
        is_private,
        is_global: false,
        is_static,
        is_virtual,
        is_far,
    }
}

pub open spec fn sp_func_class(rem: Seq<u8>) -> SpRes<FuncClass> {
    if rem.len() == 0 {
        SpRes::Bad { k: ErrorKind::UnexpectedEndOfInput, off: rem }
    } else {
        match fc_of(rem[0]) {
            Some(fc) => SpRes::Good { v: fc, rem: rem.skip(1) },
            None => SpRes::Bad { k: ErrorKind::UnknownFunctionClassByte, off: rem },
        }
    }
}

/// The single-byte primitive type table.
pub open spec fn prim_of(b: u8, sc: StorageClass) -> Option<TypeV> {
    if b == ('X' as u8) {
        Some(TypeV::Void(sc))
    } else if b == ('D' as u8) {
        Some(TypeV::Char(sc))
    } else if b == ('C' as u8) {
        Some(TypeV::Schar(sc))
    } else if b == ('E' as u8) {
        Some(TypeV::Uchar(sc))
    } else if b == ('F' as u8) {
        Some(TypeV::Short(sc))
    } else if b == ('G' as u8) {
        Some(TypeV::Ushort(sc))
    } else if b == ('H' as u8) {
        Some(TypeV::Int(sc))
    } else if b == ('I' as u8) {
        Some(TypeV::Uint(sc))
    } else if b == ('J' as u8) {
        Some(TypeV::Long(sc))
    } else if b == ('K' as u8) {
        Some(TypeV::Ulong(sc))
    } else if b == ('M' as u8) {
        Some(TypeV::Float(sc))
    } else if b == ('N' as u8) {
        Some(TypeV::Double(sc))
    } else if b == ('O' as u8) {
        Some(TypeV::Ldouble(sc))
    } else {
        None
    }
}

/// The `_`-prefixed extended primitive type table.
pub open spec fn ext_of(b: u8, sc: StorageClass) -> Option<TypeV> {
    if b == ('N' as u8) {
        Some(TypeV::Bool(sc))
    } else if b == ('J' as u8) {
        Some(TypeV::Int64(sc))
    } else if b == ('K' as u8) {
        Some(TypeV::Uint64(sc))
    } else if b == ('W' as u8) {
        Some(TypeV::Wchar(sc))
    } else {
        None
    }
}

/// A variable type: the full type grammar dispatch.
pub open spec fn sp_var_type(rem: Seq<u8>, names: Seq<Seq<u8>>, sc: StorageClass) -> SpOut<TypeV>
    decreases rem.len(), 0int, 0int,
{
    if begins2(rem, ('W' as u8), ('4' as u8)) {
        match sp_name(rem.skip(2), names) {
            SpOut::Good { v: ns, rem: r1, names: n1 } => SpOut::Good {
                v: TypeV::Enum(ns, sc),
                rem: r1,
                names: n1,
            },
            SpOut::Bad { k, off } => SpOut::Bad { k, off },
        }
    } else if begins3(rem, ('P' as u8), ('6' as u8), ('A' as u8)) {
        sp_func_ptr(rem.skip(3), names, sc)
    } else if rem.len() == 0 {
        SpOut::Bad { k: ErrorKind::UnexpectedEndOfInput, off: rem }
    } else {
        let b = rem[0];
        let r1 = rem.skip(1);
        if b == ('T' as u8) || b == ('U' as u8) || b == ('V' as u8) {
            match sp_name(r1, names) {
                SpOut::Good { v: ns, rem: r2, names: n2 } => SpOut::Good {
                    v: if b == ('T' as u8) {
                        TypeV::Union(ns, sc)
                    } else if b == ('U' as u8) {
                        TypeV::Struct(ns, sc)
                    } else {
                        TypeV::Class(ns, sc)
                    },
                    rem: r2,
                    names: n2,
                },
                SpOut::Bad { k, off } => SpOut::Bad { k, off },
            }
        } else if b == ('A' as u8) || b == ('P' as u8) || b == ('Q' as u8) {
            match sp_pointee(r1, names) {
                SpOut::Good { v: t, rem: r2, names: n2 } => SpOut::Good {
                    v: if b == ('A' as u8) {
                        TypeV::Ref(Box::new(t), sc)
                    } else if b == ('P' as u8) {
                        TypeV::Ptr(Box::new(t), sc)
                    } else {
                        TypeV::Ptr(Box::new(t), spec_sc(true, false, false))
                    },
                    rem: r2,
                    names: n2,
                },
                SpOut::Bad { k, off } => SpOut::Bad { k, off },
            }
        } else if b == ('Y' as u8) {
            sp_array(r1, names)
        } else if prim_of(b, sc) is Some {
            SpOut::Good { v: prim_of(b, sc)->0, rem: r1, names }
        } else if b == ('_' as u8) {
            if r1.len() == 0 {
                SpOut::Bad { k: ErrorKind::UnexpectedEndOfInput, off: r1 }
            } else {
                match ext_of(r1[0], sc) {
                    Some(t) => SpOut::Good { v: t, rem: r1.skip(1), names },
                    None => SpOut::Bad { k: ErrorKind::UnknownPrimitiveTypeByte, off: rem },
                }
            }
        } else {
            SpOut::Bad { k: ErrorKind::UnknownPrimitiveTypeByte, off: rem }
        }
    }
}

/// A pointee: an optional 64-bit marker, a storage class, then the type.
pub open spec fn sp_pointee(rem: Seq<u8>, names: Seq<Seq<u8>>) -> SpOut<TypeV>
    decreases rem.len(), 0int, 1int,
{
    let r1 = if begins1(rem, ('E' as u8)) {
        rem.skip(1)
    } else {
        rem
    };
    let (sc, r2) = sp_storage_class(r1);
    sp_var_type(r2, names, sc)
}

/// An array: a positive dimension count, then that many lengths.
pub open spec fn sp_array(rem: Seq<u8>, names: Seq<Seq<u8>>) -> SpOut<TypeV>
    decreases rem.len(), 0int, 1int,
{
    match sp_number(rem) {
        SpRes::Bad { k, off } => SpOut::Bad { k, off },
        SpRes::Good { v: d, rem: r1 } => {
            if d <= 0 {
                SpOut::Bad { k: ErrorKind::InvalidArrayDimension, off: r1 }
            } else if r1.len() < rem.len() {
                match sp_nested_array(r1, d, names) {
                    SpOut::Good { v: (t, _sc), rem: r2, names: n2 } => SpOut::Good {
                        v: t,
                        rem: r2,
                        names: n2,
                    },
                    SpOut::Bad { k, off } => SpOut::Bad { k, off },
                }
            } else {
                SpOut::Bad { k: ErrorKind::UnexpectedEndOfInput, off: r1 }
            }
        },
    }
}

/// The nested array levels: one length per level, then — innermost — an
/// optional `$$C` qualifier triplet and the element type. The innermost
/// qualifier is carried up to every level.
pub open spec fn sp_nested_array(rem: Seq<u8>, d: int, names: Seq<Seq<u8>>) -> SpOut<
    (TypeV, StorageClass),
>
    decreases rem.len(), 0int, 1int,
{
    if d > 0 {
        match sp_number(rem) {
            SpRes::Bad { k, off } => SpOut::Bad { k, off },
            SpRes::Good { v: len, rem: r1 } => {
                if r1.len() < rem.len() {
                    match sp_nested_array(r1, d - 1, names) {
                        SpOut::Good { v: (inner, sc), rem: r2, names: n2 } => SpOut::Good {
                            v: (TypeV::Array(len, Box::new(inner), sc), sc),
                            rem: r2,
                            names: n2,
                        },
                        SpOut::Bad { k, off } => SpOut::Bad { k, off },
                    }
                } else {
                    SpOut::Bad { k: ErrorKind::UnexpectedEndOfInput, off: r1 }
                }
            },
        }
    } else {
        let has_q = begins3(rem, ('$' as u8), ('$' as u8), ('C' as u8));
        let r1 = if has_q {
            rem.skip(3)
        } else {
            rem
        };
        if has_q && !(begins1(r1, ('B' as u8)) || begins1(r1, ('C' as u8)) || begins1(r1, ('D' as u8)) || begins1(
            r1,
            ('A' as u8),
        )) {
            SpOut::Bad { k: ErrorKind::UnknownStorageClassByte, off: r1 }
        } else {
            let scq = if has_q && begins1(r1, ('B' as u8)) {
                spec_sc(true, false, false)
            } else if has_q && (begins1(r1, ('C' as u8)) || begins1(r1, ('D' as u8))) {
                spec_sc(true, true, false)
            } else {
                spec_sc(false, false, false)
            };
            let r2 = if has_q {
                r1.skip(1)
            } else {
                r1
            };
            match sp_var_type(r2, names, spec_sc(false, false, false)) {
                SpOut::Good { v: t, rem: r3, names: n3 } => SpOut::Good {
                    v: (t, scq),
                    rem: r3,
                    names: n3,
                },
                SpOut::Bad { k, off } => SpOut::Bad { k, off },
            }
        }
    }
}

/// A pointer to a non-member function: return type, parameter list, and an
/// optional `@Z` or `Z` terminator.
pub open spec fn sp_func_ptr(rem: Seq<u8>, names: Seq<Seq<u8>>, sc: StorageClass) -> SpOut<TypeV>
    decreases rem.len(), 0int, 1int,
{
    match sp_var_type(rem, names, spec_sc(false, false, false)) {
        SpOut::Bad { k, off } => SpOut::Bad { k, off },
        SpOut::Good { v: ret, rem: r1, names: n1 } => {
            if r1.len() < rem.len() {
                match sp_params(r1, n1) {
                    SpOut::Bad { k, off } => SpOut::Bad { k, off },
                    SpOut::Good { v: ps, rem: r2, names: n2 } => {
                        let r3 = if begins2(r2, ('@' as u8), ('Z' as u8)) {
                            r2.skip(2)
                        } else if begins1(r2, ('Z' as u8)) {
                            r2.skip(1)
                        } else {
                            r2
                        };
                        SpOut::Good {
                            v: TypeV::Ptr(
                                Box::new(
                                    TypeV::NonMemberFunction(
                                        match ps {
                                            Some(ts) => ts,
                                            None => Seq::empty(),
                                        },
                                        spec_sc(false, false, false),
                                        Box::new(ret),
                                    ),
                                ),
                                sc,
                            ),
                            rem: r3,
                            names: n2,
                        }
                    },
                }
            } else {
                SpOut::Bad { k: ErrorKind::UnexpectedEndOfInput, off: r1 }
            }
        },
    }
}

/// The return type of a member function: `@` means the sentinel "no
/// declared return type" used for constructors and destructors.
pub open spec fn sp_func_return_type(rem: Seq<u8>, names: Seq<Seq<u8>>, sc: StorageClass) -> SpOut<
    TypeV,
>
    decreases rem.len(), 0int, 1int,
{
    if begins1(rem, ('@' as u8)) {
        SpOut::Good { v: TypeV::NoReturn, rem: rem.skip(1), names }
    } else {
        sp_var_type(rem, names, sc)
    }
}

/// One step of the parameter-list loop. `cache` is this list's private
/// type back-reference cache: it starts empty for every list and grows
/// only with types decoded by this very list.
pub open spec fn sp_params_loop(
    rem: Seq<u8>,
    names: Seq<Seq<u8>>,
    cache: Seq<TypeV>,
    acc: Seq<TypeV>,
) -> SpOut<Option<Seq<TypeV>>>
    decreases rem.len(), 0int, 2int,
{
    if begins1(rem, ('@' as u8)) || begins1(rem, ('Z' as u8)) {
        SpOut::Good {
            v: if acc.len() == 0 {
                None
            } else {
                Some(acc)
            },
            rem,
            names,
        }
    } else if rem.len() > 0 && is_digit_byte(rem[0]) {
        let n = rem[0] - ('0' as u8);
        if n >= cache.len() {
            SpOut::Bad { k: ErrorKind::InvalidBackReferenceIndex, off: rem.skip(1) }
        } else {
            sp_params_loop(rem.skip(1), names, cache, acc.push(cache[n]))
        }
    } else {
        match sp_var_type(rem, names, spec_sc(false, false, false)) {
            SpOut::Bad { k, off } => SpOut::Bad { k, off },
            SpOut::Good { v: t, rem: r1, names: n1 } => {
                if r1.len() < rem.len() {
                    sp_params_loop(
                        r1,
                        n1,
                        sp_cache_step(cache, t, rem.len() - r1.len()),
                        acc.push(t),
                    )
                } else {
                    SpOut::Bad { k: ErrorKind::UnexpectedEndOfInput, off: r1 }
                }
            },
        }
    }
}

/// How the parameter-list type cache grows: a decoded type is memorized
/// only while fewer than ten entries are held and only when its encoding
/// took more than one byte.
pub open spec fn sp_cache_step(cache: Seq<TypeV>, t: TypeV, consumed: int) -> Seq<TypeV> {
    if cache.len() <= 9 && consumed > 1 {
        cache.push(t)
    } else {
        cache
    }
}

/// A function-argument or template-argument list. Every list starts with a
/// fresh, empty type back-reference cache: a digit in this list can never
/// resolve against a sibling list's entries.
pub open spec fn sp_params(rem: Seq<u8>, names: Seq<Seq<u8>>) -> SpOut<Option<Seq<TypeV>>>
    decreases rem.len(), 0int, 3int,
{
    sp_params_loop(rem, names, Seq::empty(), Seq::empty())
}

/// One pass of the name-segment loop, accumulating segments until the
/// closing `@`.
pub open spec fn sp_name_loop(rem: Seq<u8>, names: Seq<Seq<u8>>, acc: Seq<NameV>) -> SpOut<
    Seq<NameV>,
>
    decreases rem.len(), 0int, 4int,
{
    if begins1(rem, ('@' as u8)) {
        SpOut::Good { v: acc, rem: rem.skip(1), names }
    } else if rem.len() > 0 && is_digit_byte(rem[0]) {
        let i = rem[0] - ('0' as u8);
        if i >= names.len() {
            SpOut::Bad { k: ErrorKind::InvalidBackReferenceIndex, off: rem }
        } else {
            let seg = NameV { name: names[i], op: None, tmpl: None };
            sp_name_loop(rem.skip(1), names, acc.push(seg))
        }
    } else if begins2(rem, ('?' as u8), ('$' as u8)) {
        match sp_string(rem.skip(2)) {
            SpRes::Bad { k, off } => SpOut::Bad { k, off },
            SpRes::Good { v: frag, rem: r1 } => {
                if r1.len() < rem.len() {
                    match sp_params(r1, names) {
                        SpOut::Bad { k, off } => SpOut::Bad { k, off },
                        SpOut::Good { v: ps, rem: r2, names: n2 } => {
                            if begins1(r2, ('@' as u8)) {
                                let seg = NameV { name: frag, op: None, tmpl: ps };
                                if r2.skip(1).len() < rem.len() {
                                    sp_name_loop(r2.skip(1), n2, acc.push(seg))
                                } else {
                                    SpOut::Bad { k: ErrorKind::UnexpectedEndOfInput, off: r2 }
                                }
                            } else {
                                SpOut::Bad { k: ErrorKind::UnexpectedByte, off: r2 }
                            }
                        },
                    }
                } else {
                    SpOut::Bad { k: ErrorKind::UnexpectedEndOfInput, off: r1 }
                }
            },
        }
    } else if begins1(rem, ('?' as u8)) {
        match sp_operator(rem.skip(1), names) {
            SpOut::Bad { k, off } => SpOut::Bad { k, off },
            SpOut::Good { v: (op, oname), rem: r1, names: n1 } => {
                if r1.len() < rem.len() {
                    match sp_params(r1, n1) {
                        SpOut::Bad { k, off } => SpOut::Bad { k, off },
                        SpOut::Good { v: ps, rem: r2, names: n2 } => {
                            let seg = NameV {
                                name: match oname {
                                    Some(s) => s,
                                    None => Seq::empty(),
                                },
                                op: Some(op),
                                tmpl: ps,
                            };
                            if r2.len() < rem.len() {
                                sp_name_loop(r2, n2, acc.push(seg))
                            } else {
                                SpOut::Bad { k: ErrorKind::UnexpectedEndOfInput, off: r2 }
                            }
                        },
                    }
                } else {
                    SpOut::Bad { k: ErrorKind::UnexpectedEndOfInput, off: r1 }
                }
            },
        }
    } else {
        match sp_string(rem) {
            SpRes::Bad { k, off } => SpOut::Bad { k, off },
            SpRes::Good { v: frag, rem: r1 } => {
                let n1 = sp_memorize(names, frag);
                let seg = NameV { name: frag, op: None, tmpl: None };
                if r1.len() < rem.len() {
                    sp_name_loop(r1, n1, acc.push(seg))
                } else {
                    SpOut::Bad { k: ErrorKind::UnexpectedEndOfInput, off: r1 }
                }
            },
        }
    }
}

/// A qualified name: segments up to the closing `@`, innermost first.
pub open spec fn sp_name(rem: Seq<u8>, names: Seq<Seq<u8>>) -> SpOut<Seq<NameV>>
    decreases rem.len(), 0int, 5int,
{
    sp_name_loop(rem, names, Seq::empty())
}

/// The top-level grammar: the `?` marker, the qualified name, then a
/// variable, a non-member function, or a member function.
pub open spec fn sp_parse(rem: Seq<u8>, names: Seq<Seq<u8>>) -> SpOut<(Seq<NameV>, TypeV)>
    decreases rem.len(), 0int, 8int,
{
    if !begins1(rem, ('?' as u8)) {
        SpOut::Bad { k: ErrorKind::MissingPrefixMarker, off: rem }
    } else {
        match sp_name(rem.skip(1), names) {
            SpOut::Bad { k, off } => SpOut::Bad { k, off },
            SpOut::Good { v: symbol, rem: r1, names: n1 } => {
                if r1.len() < rem.len() {
                    sp_parse_tail(rem, r1, n1, symbol)
                } else {
                    SpOut::Bad { k: ErrorKind::UnexpectedEndOfInput, off: r1 }
                }
            },
        }
    }
}

/// The non-member-function branch after `Y`: calling convention, return
/// qualifier, return type, parameter list.
pub open spec fn sp_nonmember(rem: Seq<u8>, names: Seq<Seq<u8>>) -> SpOut<TypeV>
    decreases rem.len(), 0int, 6int,
{
    match sp_calling_conv(rem) {
        SpRes::Bad { k, off } => SpOut::Bad { k, off },
        SpRes::Good { v: _conv, rem: r2 } => {
            match sp_storage_class_for_return(r2) {
                SpRes::Bad { k, off } => SpOut::Bad { k, off },
                SpRes::Good { v: sc, rem: r3 } => {
                    if r3.len() < rem.len() {
                        match sp_var_type(r3, names, sc) {
                            SpOut::Bad { k, off } => SpOut::Bad { k, off },
                            SpOut::Good { v: ret, rem: r4, names: n4 } => {
                                if r4.len() < rem.len() {
                                    match sp_params(r4, n4) {
                                        SpOut::Bad { k, off } => SpOut::Bad { k, off },
                                        SpOut::Good { v: ps, rem: r5, names: n5 } => SpOut::Good {
                                            v: TypeV::NonMemberFunction(
                                                match ps {
                                                    Some(ts) => ts,
                                                    None => Seq::empty(),
                                                },
                                                spec_sc(false, false, false),
                                                Box::new(ret),
                                            ),
                                            rem: r5,
                                            names: n5,
                                        },
                                    }
                                } else {
                                    SpOut::Bad { k: ErrorKind::UnexpectedEndOfInput, off: r4 }
                                }
                            },
                        }
                    } else {
                        SpOut::Bad { k: ErrorKind::UnexpectedEndOfInput, off: r3 }
                    }
                },
            }
        },
    }
}

/// The member-function branch: function class, optional 64-bit marker,
/// access qualifier, calling convention, return qualifier, return type
/// (or the constructor/destructor sentinel), parameter list.
pub open spec fn sp_member(rem: Seq<u8>, names: Seq<Seq<u8>>) -> SpOut<TypeV>
    decreases rem.len(), 0int, 6int,
{
    match sp_func_class(rem) {
        SpRes::Bad { k, off } => SpOut::Bad { k, off },
        SpRes::Good { v: _fc, rem: r2 } => {
            let r3 = if begins1(r2, ('E' as u8)) {
                r2.skip(1)
            } else {
                r2
            };
            let (access, r4) = sp_func_access_class(r3);
            match sp_calling_conv(r4) {
                SpRes::Bad { k, off } => SpOut::Bad { k, off },
                SpRes::Good { v: _conv, rem: r5 } => {
                    match sp_storage_class_for_return(r5) {
                        SpRes::Bad { k, off } => SpOut::Bad { k, off },
                        SpRes::Good { v: sc, rem: r6 } => {
                            if r6.len() < rem.len() {
                                match sp_func_return_type(r6, names, sc) {
                                    SpOut::Bad { k, off } => SpOut::Bad { k, off },
                                    SpOut::Good { v: ret, rem: r7, names: n7 } => {
                                        if r7.len() < rem.len() {
                                            match sp_params(r7, n7) {
                                                SpOut::Bad { k, off } => SpOut::Bad { k, off },
                                                SpOut::Good { v: ps, rem: r8, names: n8 } => SpOut::Good {
                                                    v: TypeV::MemberFunction(
                                                        match ps {
                                                            Some(ts) => ts,
                                                            None => Seq::empty(),
                                                        },
                                                        access,
                                                        Box::new(ret),
                                                    ),
                                                    rem: r8,
                                                    names: n8,
                                                },
                                            }
                                        } else {
                                            SpOut::Bad {
                                                k: ErrorKind::UnexpectedEndOfInput,
                                                off: r7,
                                            }
                                        }
                                    },
                                }
                            } else {
                                SpOut::Bad { k: ErrorKind::UnexpectedEndOfInput, off: r6 }
                            }
                        },
                    }
                },
            }
        },
    }
}

/// The branch after the qualified name: `3` variable, `Y` non-member
/// function, otherwise member function. `rem0` is the whole input, kept
/// only as the strictly larger termination measure.
pub open spec fn sp_parse_tail(
    rem0: Seq<u8>,
    r1: Seq<u8>,
    n1: Seq<Seq<u8>>,
    symbol: Seq<NameV>,
) -> SpOut<(Seq<NameV>, TypeV)>
    decreases rem0.len(), 0int, 7int,
    when r1.len() < rem0.len()
{
    if begins1(r1, ('3' as u8)) {
        match sp_var_type(r1.skip(1), n1, spec_sc(false, false, false)) {
            SpOut::Bad { k, off } => SpOut::Bad { k, off },
            SpOut::Good { v: t, rem: r2, names: n2 } => SpOut::Good {
                v: (symbol, t),
                rem: r2,
                names: n2,
            },
        }
    } else if begins1(r1, ('Y' as u8)) {
        match sp_nonmember(r1.skip(1), n1) {
            SpOut::Bad { k, off } => SpOut::Bad { k, off },
            SpOut::Good { v: t, rem: r2, names: n2 } => SpOut::Good {
                v: (symbol, t),
                rem: r2,
                names: n2,
            },
        }
    } else {
        match sp_member(r1, n1) {
            SpOut::Bad { k, off } => SpOut::Bad { k, off },
            SpOut::Good { v: t, rem: r2, names: n2 } => SpOut::Good {
                v: (symbol, t),
                rem: r2,
                names: n2,
            },
        }
    }
}

/// Bounded name cache: memorizing into a cache holding at most ten
/// entries never grows it beyond ten — the eleventh distinct name is
/// usable but never cached.
pub proof fn lemma_name_cache_bounded(names: Seq<Seq<u8>>, s: Seq<u8>)
    requires
        names.len() <= 10,
    ensures
        sp_memorize(names, s).len() <= 10,
{
}

/// Bounded type cache: one parameter-list cache step never grows the
/// cache beyond ten entries.
pub proof fn lemma_type_cache_bounded(cache: Seq<TypeV>, t: TypeV, consumed: int)
    requires
        cache.len() <= 10,
    ensures
        sp_cache_step(cache, t, consumed).len() <= 10,
{
}

/// The largest type cache a parameter list ever holds, stepping through
/// the list exactly as `sp_params_loop` does: the same terminator, digit
/// and decoded-type cases, the same `sp_cache_step` growth.
pub open spec fn sp_cache_peak(
    rem: Seq<u8>,
    names: Seq<Seq<u8>>,
    cache: Seq<TypeV>,
    acc: Seq<TypeV>,
) -> int
    decreases rem.len(), 0int, 2int,
{
    if begins1(rem, ('@' as u8)) || begins1(rem, ('Z' as u8)) {
        cache.len() as int
    } else if rem.len() > 0 && is_digit_byte(rem[0]) {
        let n = rem[0] - ('0' as u8);
        if n >= cache.len() {
            cache.len() as int
        } else {
            let rest = sp_cache_peak(rem.skip(1), names, cache, acc.push(cache[n]));
            if cache.len() as int > rest {
                cache.len() as int
            } else {
                rest
            }
        }
    } else {
        match sp_var_type(rem, names, spec_sc(false, false, false)) {
            SpOut::Bad { k: _, off: _ } => cache.len() as int,
            SpOut::Good { v: t, rem: r1, names: n1 } => {
                if r1.len() < rem.len() {
                    let rest = sp_cache_peak(
                        r1,
                        n1,
                        sp_cache_step(cache, t, rem.len() - r1.len()),
                        acc.push(t),
                    );
                    if cache.len() as int > rest {
                        cache.len() as int
                    } else {
                        rest
                    }
                } else {
                    cache.len() as int
                }
            },
        }
    }
}

/// Bounded type cache, throughout a list: stepping from a cache of at
/// most ten entries, no point of the parameter-list loop ever holds more
/// than ten — the eleventh distinct multi-byte type is decoded and usable
/// but never cached.
pub proof fn lemma_param_cache_bounded_throughout(
    rem: Seq<u8>,
    names: Seq<Seq<u8>>,
    cache: Seq<TypeV>,
    acc: Seq<TypeV>,
)
    requires
        cache.len() <= 10,
    ensures
        sp_cache_peak(rem, names, cache, acc) <= 10,
    decreases rem.len(),
{
    if begins1(rem, ('@' as u8)) || begins1(rem, ('Z' as u8)) {
    } else if rem.len() > 0 && is_digit_byte(rem[0]) {
        let n = rem[0] - ('0' as u8);
        if n < cache.len() {
            lemma_param_cache_bounded_throughout(rem.skip(1), names, cache, acc.push(cache[n]));
        }
    } else {
        match sp_var_type(rem, names, spec_sc(false, false, false)) {
            SpOut::Bad { k: _, off: _ } => {},
            SpOut::Good { v: t, rem: r1, names: n1 } => {
                if r1.len() < rem.len() {
                    lemma_type_cache_bounded(cache, t, rem.len() - r1.len());
                    lemma_param_cache_bounded_throughout(
                        r1,
                        n1,
                        sp_cache_step(cache, t, rem.len() - r1.len()),
                        acc.push(t),
                    );
                }
            },
        }
    }
}

/// Bounded type cache for every parameter list: a list starts with an
/// empty cache, so it never holds more than ten entries at any point.
pub proof fn lemma_params_cache_bounded(rem: Seq<u8>, names: Seq<Seq<u8>>)
    ensures
        sp_cache_peak(rem, names, Seq::empty(), Seq::empty()) <= 10,
{
    lemma_param_cache_bounded_throughout(rem, names, Seq::empty(), Seq::empty());
}

/// Cache scoping: every parameter list is decoded against a fresh, empty
/// type back-reference cache; nothing a sibling list memorized can reach
/// it, since the model of a list takes no cache at all.
pub proof fn lemma_param_list_scoped(rem: Seq<u8>, names: Seq<Seq<u8>>)
    ensures
        sp_params(rem, names) == sp_params_loop(rem, names, Seq::empty(), Seq::empty()),
{
}

/// Cache scoping, observed: a back-reference digit that opens a parameter
/// list never resolves, whatever an earlier sibling list memorized — the
/// fresh list holds no entries yet.
pub proof fn lemma_sibling_backref_rejected(rem: Seq<u8>, names: Seq<Seq<u8>>)
    requires
        rem.len() > 0,
        is_digit_byte(rem[0]),
    ensures
        sp_params(rem, names) is Bad,
        sp_params(rem, names)->k == ErrorKind::InvalidBackReferenceIndex,
{
    assert(!begins1(rem, ('@' as u8)));
    assert(!begins1(rem, ('Z' as u8)));
}

} // verus!
