//! The declaration printer: renders a decoded tree back to a C++
//! declarator string in two phases around the declared name.
//!
//! `write_pre` emits everything preceding the name (base type, grouping
//! parenthesis, pointer and reference sigils, qualifiers); `write_post`
//! emits everything following it (parameter lists, array lengths, closing
//! parentheses). Each function is proved to append exactly the bytes its
//! model (`sp_pre`, `sp_post`, ...) names, so printing the same tree twice
//! gives byte-identical output.
use vstd::prelude::*;

use crate::ast::{lemma_names_v_props, lemma_types_v_props, name_v, names_v, opt_params_v,
    params_v, type_v, NameSequence, NameV, Op, Params, ParseResult, Type, TypeV};
use crate::flags::StorageClass;

verus! {

/// Whether a byte asks for a separating space before the next token:
/// letters and the pointer or reference sigils do.
pub open spec fn needs_space_after(b: u8) -> bool {
    (('a' as u8) <= b && b <= ('z' as u8)) || (('A' as u8) <= b && b <= ('Z' as u8)) || b == (
    '*' as u8) || b == ('&' as u8)
}

/// The spacing rule: one space, only after a letter or a sigil.
pub open spec fn sp_space(cur: Seq<u8>) -> Seq<u8> {
    if cur.len() > 0 && needs_space_after(cur.last()) {
        cur.push(' ' as u8)
    } else {
        cur
    }
}

/// A trailing `const`, where the storage class asks for one.
pub open spec fn sp_const(cur: Seq<u8>, sc: StorageClass) -> Seq<u8> {
    if sc.is_const {
        sp_space(cur).push('c' as u8).push('o' as u8).push('n' as u8).push('s' as u8).push(
            't' as u8,
        )
    } else {
        cur
    }
}

/// Whether grouping parentheses are needed around a pointer or reference
/// to this type: function and array types bind tighter than `*` and `&`.
pub open spec fn sp_grouped(t: TypeV) -> bool {
    match t {
        TypeV::MemberFunction(_, _, _) => true,
        TypeV::NonMemberFunction(_, _, _) => true,
        TypeV::Array(_, _, _) => true,
        _ => false,
    }
}

/// The decimal digits of a nonnegative number.
pub open spec fn sp_udec(cur: Seq<u8>, n: nat) -> Seq<u8>
    decreases n,
{
    if n < 10 {
        cur.push((48 + n) as u8)
    } else {
        sp_udec(cur, n / 10).push((48 + n % 10) as u8)
    }
}

/// A decimal number with an optional sign, as an array length prints.
pub open spec fn sp_dec(cur: Seq<u8>, v: int) -> Seq<u8> {
    if v < 0 {
        sp_udec(cur.push('-' as u8), (-v) as nat)
    } else {
        sp_udec(cur, v as nat)
    }
}

/// The keyword of a user-defined type kind.
pub open spec fn sp_kind_kw(k: ClassKind) -> Seq<u8> {
    match k {
        ClassKind::Struct => seq![
            ('s' as u8),
            ('t' as u8),
            ('r' as u8),
            ('u' as u8),
            ('c' as u8),
            ('t' as u8),
        ],
        ClassKind::Union => seq![('u' as u8), ('n' as u8), ('i' as u8), ('o' as u8), ('n' as u8)],
        ClassKind::Class => seq![('c' as u8), ('l' as u8), ('a' as u8), ('s' as u8), ('s' as u8)],
        ClassKind::Enum => seq![('e' as u8), ('n' as u8), ('u' as u8), ('m' as u8)],
    }
}

/// The kind of a user-defined type, as its keyword prints.
#[derive(Clone, Copy, Debug, PartialEq, Eq, Structural)]
pub enum ClassKind {
    Struct,
    Union,
    Class,
    Enum,
}

/// The "first half" of a type: everything preceding the declared name.
pub open spec fn sp_pre(cur: Seq<u8>, t: TypeV) -> Seq<u8>
    decreases t, 0int, 0int,
{
    match t {
        TypeV::NoReturn => cur,
        TypeV::MemberFunction(_ps, _sc, ret) => sp_pre(cur, *ret),
        TypeV::NonMemberFunction(_ps, _sc, ret) => sp_pre(cur, *ret),
        TypeV::Ptr(inner, sc) => {
            let c1 = sp_pre(cur, *inner);
            let c2 = if sp_grouped(*inner) {
                c1.push('(' as u8)
            } else {
                c1
            };
            sp_const(sp_space(c2).push('*' as u8), sc)
        },
        TypeV::Ref(inner, sc) => {
            let c1 = sp_pre(cur, *inner);
            let c2 = if sp_grouped(*inner) {
                c1.push('(' as u8)
            } else {
                c1
            };
            sp_const(sp_space(c2).push('&' as u8), sc)
        },
        TypeV::Array(_len, inner, sc) => sp_const(sp_pre(cur, *inner), sc),
        TypeV::Struct(ns, sc) => sp_const(sp_class_out(cur, ClassKind::Struct, ns), sc),
        TypeV::Union(ns, sc) => sp_const(sp_class_out(cur, ClassKind::Union, ns), sc),
        TypeV::Class(ns, sc) => sp_const(sp_class_out(cur, ClassKind::Class, ns), sc),
        TypeV::Enum(ns, sc) => sp_const(sp_class_out(cur, ClassKind::Enum, ns), sc),
        TypeV::Void(sc) => sp_const(
            cur.push('v' as u8).push('o' as u8).push('i' as u8).push('d' as u8),
            sc,
        ),
        TypeV::Bool(sc) => sp_const(
            cur.push('b' as u8).push('o' as u8).push('o' as u8).push('l' as u8),
            sc,
        ),
        TypeV::Char(sc) => sp_const(
            cur.push('c' as u8).push('h' as u8).push('a' as u8).push('r' as u8),
            sc,
        ),
        TypeV::Schar(sc) => sp_const(
            cur.push('s' as u8).push('i' as u8).push('g' as u8).push('n' as u8).push(
                'e' as u8,
            ).push('d' as u8).push(' ' as u8).push('c' as u8).push('h' as u8).push('a' as u8).push(
                'r' as u8,
            ),
            sc,
        ),
        TypeV::Uchar(sc) => sp_const(
            cur.push('u' as u8).push('n' as u8).push('s' as u8).push('i' as u8).push(
                'g' as u8,
            ).push('n' as u8).push('e' as u8).push('d' as u8).push(' ' as u8).push('c' as u8).push(
                'h' as u8,
            ).push('a' as u8).push('r' as u8),
            sc,
        ),
        TypeV::Short(sc) => sp_const(
            cur.push('s' as u8).push('h' as u8).push('o' as u8).push('r' as u8).push('t' as u8),
            sc,
        ),
        TypeV::Ushort(sc) => sp_const(
            cur.push('u' as u8).push('n' as u8).push('s' as u8).push('i' as u8).push(
                'g' as u8,
            ).push('n' as u8).push('e' as u8).push('d' as u8).push(' ' as u8).push('s' as u8).push(
                'h' as u8,
            ).push('o' as u8).push('r' as u8).push('t' as u8),
            sc,
        ),
        TypeV::Int(sc) => sp_const(cur.push('i' as u8).push('n' as u8).push('t' as u8), sc),
        TypeV::Uint(sc) => sp_const(
            cur.push('u' as u8).push('n' as u8).push('s' as u8).push('i' as u8).push(
                'g' as u8,
            ).push('n' as u8).push('e' as u8).push('d' as u8).push(' ' as u8).push('i' as u8).push(
                'n' as u8,
            ).push('t' as u8),
            sc,
        ),
        TypeV::Long(sc) => sp_const(
            cur.push('l' as u8).push('o' as u8).push('n' as u8).push('g' as u8),
            sc,
        ),
        TypeV::Ulong(sc) => sp_const(
            cur.push('u' as u8).push('n' as u8).push('s' as u8).push('i' as u8).push(
                'g' as u8,
            ).push('n' as u8).push('e' as u8).push('d' as u8).push(' ' as u8).push('l' as u8).push(
                'o' as u8,
            ).push('n' as u8).push('g' as u8),
            sc,
        ),
        TypeV::Int64(sc) => sp_const(
            cur.push('i' as u8).push('n' as u8).push('t' as u8).push('6' as u8).push(
                '4' as u8,
            ).push('_' as u8).push('t' as u8),
            sc,
        ),
        TypeV::Uint64(sc) => sp_const(
            cur.push('u' as u8).push('i' as u8).push('n' as u8).push('t' as u8).push(
                '6' as u8,
            ).push('4' as u8).push('_' as u8).push('t' as u8),
            sc,
        ),
        TypeV::Wchar(sc) => sp_const(
            cur.push('w' as u8).push('c' as u8).push('h' as u8).push('a' as u8).push(
                'r' as u8,
            ).push('_' as u8).push('t' as u8),
            sc,
        ),
        TypeV::Float(sc) => sp_const(
            cur.push('f' as u8).push('l' as u8).push('o' as u8).push('a' as u8).push('t' as u8),
            sc,
        ),
        TypeV::Double(sc) => sp_const(
            cur.push('d' as u8).push('o' as u8).push('u' as u8).push('b' as u8).push(
                'l' as u8,
            ).push('e' as u8),
            sc,
        ),
        TypeV::Ldouble(sc) => sp_const(
            cur.push('l' as u8).push('o' as u8).push('n' as u8).push('g' as u8).push(
                ' ' as u8,
            ).push('d' as u8).push('o' as u8).push('u' as u8).push('b' as u8).push('l' as u8).push(
                'e' as u8,
            ),
            sc,
        ),
    }
}

/// The "second half" of a type: everything following the declared name.
pub open spec fn sp_post(cur: Seq<u8>, t: TypeV) -> Seq<u8>
    decreases t, 0int, 0int,
{
    match t {
        TypeV::MemberFunction(ps, sc, _ret) => {
            let c1 = sp_params_out(cur.push('(' as u8), ps).push(')' as u8);
            if sc.is_const {
                c1.push('c' as u8).push('o' as u8).push('n' as u8).push('s' as u8).push('t' as u8)
            } else {
                c1
            }
        },
        TypeV::NonMemberFunction(ps, sc, _ret) => {
            let c1 = sp_params_out(cur.push('(' as u8), ps).push(')' as u8);
            if sc.is_const {
                c1.push('c' as u8).push('o' as u8).push('n' as u8).push('s' as u8).push('t' as u8)
            } else {
                c1
            }
        },
        TypeV::Ptr(inner, _sc) => {
            let c1 = if sp_grouped(*inner) {
                cur.push(')' as u8)
            } else {
                cur
            };
            sp_post(c1, *inner)
        },
        TypeV::Ref(inner, _sc) => {
            let c1 = if sp_grouped(*inner) {
                cur.push(')' as u8)
            } else {
                cur
            };
            sp_post(c1, *inner)
        },
        TypeV::Array(len, inner, _sc) => sp_post(
            sp_dec(cur.push('[' as u8), len).push(']' as u8),
            *inner,
        ),
        _ => cur,
    }
}

/// A comma-separated list of types, each printed in both phases.
pub open spec fn sp_params_out(cur: Seq<u8>, ts: Seq<TypeV>) -> Seq<u8>
    decreases ts, 0int, 0int,
{
    if ts.len() == 0 {
        cur
    } else if ts.len() == 1 {
        sp_post(sp_pre(cur, ts[0]), ts[0])
    } else {
        sp_params_out(sp_post(sp_pre(cur, ts[0]), ts[0]).push(',' as u8), ts.skip(1))
    }
}

/// Template arguments in angle brackets; absent means "not a template".
pub open spec fn sp_tmpl(cur: Seq<u8>, tmpl: Option<Seq<TypeV>>) -> Seq<u8>
    decreases tmpl, 0int, 1int,
{
    match tmpl {
        Some(ps) => sp_params_out(cur.push('<' as u8), ps).push('>' as u8),
        None => cur,
    }
}

/// One outer (enclosing scope) name segment: its text, its template
/// arguments, and the `::` separator.
pub open spec fn sp_outer_seg(cur: Seq<u8>, nv: NameV) -> Seq<u8>
    decreases nv, 0int, 2int,
{
    sp_tmpl(cur + nv.name, nv.tmpl).push(':' as u8).push(':' as u8)
}

/// The outer segments, from the outermost (index `k`) down to index 1.
pub open spec fn sp_outer(cur: Seq<u8>, ns: Seq<NameV>, k: int) -> Seq<u8>
    decreases ns, k, 3int,
    when 0 <= k < ns.len()
{
    if k < 1 {
        cur
    } else {
        sp_outer(sp_outer_seg(cur, ns[k]), ns, k - 1)
    }
}

/// The innermost name segment: a plain name with template arguments, a
/// constructor or destructor repeating the class name, or an overloaded
/// operator with its spelling.
pub open spec fn sp_first(cur: Seq<u8>, nv: NameV) -> Seq<u8>
    decreases nv, 0int, 2int,
{
    match nv.op {
        None => sp_tmpl(cur + nv.name, nv.tmpl),
        Some(op) => {
            if op == Op::Ctor || op == Op::Dtor {
                let c1 = cur + nv.name;
                let c2 = match nv.tmpl {
                    Some(ps) => sp_params_out(c1, ps),
                    None => c1,
                };
                let c3 = c2.push(':' as u8).push(':' as u8);
                let c4 = if op == Op::Dtor {
                    c3.push('~' as u8)
                } else {
                    c3
                };
                c4 + nv.name
            } else {
                let c1 = if nv.name.len() > 0 {
                    (cur + nv.name).push(':' as u8).push(':' as u8)
                } else {
                    cur
                };
                let c2 = c1.push('o' as u8).push('p' as u8).push('e' as u8).push('r' as u8).push(
                    'a' as u8,
                ).push('t' as u8).push('o' as u8).push('r' as u8);
                c2 + sp_spelling(op)
            }
        },
    }
}

/// A full qualified name: a leading space where the rule asks for one,
/// the outer scopes outermost-first, then the innermost segment.
pub open spec fn sp_name_out(cur: Seq<u8>, ns: Seq<NameV>) -> Seq<u8>
    decreases ns, ns.len(), 4int,
{
    let c1 = sp_space(cur);
    if ns.len() == 0 {
        c1
    } else {
        sp_first(sp_outer(c1, ns, ns.len() - 1), ns[0])
    }
}

/// A user-defined type: its kind keyword, a space, and its name.
pub open spec fn sp_class_out(cur: Seq<u8>, k: ClassKind, ns: Seq<NameV>) -> Seq<u8>
    decreases ns, ns.len() + 1, 5int,
{
    sp_name_out((cur + sp_kind_kw(k)).push(' ' as u8), ns)
}

/// The whole declaration: the type's first half, the declared name, the
/// type's second half.
pub open spec fn sp_serialize(symbol: Seq<NameV>, t: TypeV) -> Seq<u8> {
    sp_post(sp_name_out(sp_pre(Seq::empty(), t), symbol), t)
}

/// Append one byte.
fn push_byte(w: &mut Vec<u8>, b: u8)
    ensures
        final(w)@ == old(w)@.push(b),
{
    w.push(b);
}

/// Append a run of bytes.
fn push_bytes(w: &mut Vec<u8>, s: &[u8])
    ensures
        final(w)@ == old(w)@ + s@,
{
    let n = s.len();
    let mut i: usize = 0;
    proof {
        assert(w@ =~= old(w)@ + s@.take(0int));
    }
    while i < n
        invariant
            i <= n,
            n == s@.len(),
            w@ == old(w)@ + s@.take(i as int),
        decreases n - i,
    {
        push_byte(w, s[i]);
        proof {
            assert(w@ =~= old(w)@ + s@.take(i as int + 1));
        }
        i = i + 1;
    }
    proof {
        assert(s@.take(n as int) =~= s@);
    }
}

/// Emit the decimal digits of a nonnegative number.
fn write_udec(w: &mut Vec<u8>, n: u32)
    ensures
        final(w)@ == sp_udec(old(w)@, n as nat),
    decreases n,
{
    if n < 10 {
        push_byte(w, ('0' as u8) + (n as u8));
    } else {
        write_udec(w, n / 10);
        push_byte(w, ('0' as u8) + ((n % 10) as u8));
    }
}

/// Emit a decimal number with an optional sign, as array lengths print.
fn write_dec(w: &mut Vec<u8>, v: i32)
    ensures
        final(w)@ == sp_dec(old(w)@, v as int),
{
    if v < 0 {
        push_byte(w, '-' as u8);
        let m: u32 = if v == -0x7FFF_FFFFi32 - 1 {
            0x8000_0000u32
        } else {
            (-v) as u32
        };
        write_udec(w, m);
    } else {
        write_udec(w, v as u32);
    }
}

/// The spelling of each overloaded-operator code, as the printer emits it.
pub open spec fn sp_spelling(op: Op) -> Seq<u8> {
    match op {
        Op::Ctor => seq![('c' as u8), ('t' as u8), ('o' as u8), ('r' as u8)],
        Op::Dtor => seq![('d' as u8), ('t' as u8), ('o' as u8), ('r' as u8)],
        Op::New => seq![(' ' as u8), ('n' as u8), ('e' as u8), ('w' as u8)],
        Op::Delete => seq![(' ' as u8), ('d' as u8), ('e' as u8), ('l' as u8), ('e' as u8), ('t' as u8), ('e' as u8)],
        Op::Assign => seq![('=' as u8)],
        Op::Shr => seq![('>' as u8), ('>' as u8)],
        Op::Shl => seq![('<' as u8), ('<' as u8)],
        Op::Not => seq![('!' as u8)],
        Op::Equal => seq![('=' as u8), ('=' as u8)],
        Op::NotEqual => seq![('!' as u8), ('=' as u8)],
        Op::Subscript => seq![('[' as u8), (']' as u8)],
        Op::Arrow => seq![('-' as u8), ('>' as u8)],
        Op::Deref => seq![('*' as u8)],
        Op::Increment => seq![('+' as u8), ('+' as u8)],
        Op::Decrement => seq![('-' as u8), ('-' as u8)],
        Op::Subtract => seq![('-' as u8)],
        Op::Add => seq![('+' as u8)],
        Op::AddressOf => seq![('&' as u8)],
        Op::ArrowStar => seq![('-' as u8), ('>' as u8), ('*' as u8)],
        Op::Divide => seq![('/' as u8)],
        Op::Modulus => seq![('%' as u8)],
        Op::Less => seq![('<' as u8)],
        Op::LessEqual => seq![('<' as u8), ('=' as u8)],
        Op::Greater => seq![('>' as u8)],
        Op::GreaterEqual => seq![('>' as u8), ('=' as u8)],
        Op::Comma => seq![(',' as u8)],
        Op::Call => seq![('(' as u8), (')' as u8)],
        Op::BitNot => seq![('~' as u8)],
        Op::BitXor => seq![('^' as u8)],
        Op::BitOr => seq![('|' as u8)],
        Op::LogicalAnd => seq![('&' as u8), ('&' as u8)],
        Op::LogicalOr => seq![('|' as u8), ('|' as u8)],
        Op::MulAssign => seq![('*' as u8), ('=' as u8)],
        Op::AddAssign => seq![('+' as u8), ('=' as u8)],
        Op::SubAssign => seq![('-' as u8), ('=' as u8)],
        Op::DivAssign => seq![('/' as u8), ('=' as u8)],
        Op::ModAssign => seq![('%' as u8), ('=' as u8)],
        Op::ShrAssign => seq![('>' as u8), ('>' as u8), ('=' as u8)],
        Op::ShlAssign => seq![('<' as u8), ('<' as u8), ('=' as u8)],
        Op::AndAssign => seq![('&' as u8), ('=' as u8)],
        Op::OrAssign => seq![('|' as u8), ('=' as u8)],
        Op::XorAssign => seq![('^' as u8), ('=' as u8)],
        Op::NewArray => seq![(' ' as u8), ('n' as u8), ('e' as u8), ('w' as u8), ('[' as u8), (']' as u8)],
        Op::DeleteArray => seq![(' ' as u8), ('d' as u8), ('e' as u8), ('l' as u8), ('e' as u8), ('t' as u8), ('e' as u8), ('[' as u8), (']' as u8)],
        Op::CoAwait => seq![(' ' as u8), ('c' as u8), ('o' as u8), ('_' as u8), ('a' as u8), ('w' as u8), ('a' as u8), ('i' as u8), ('t' as u8)],
    }
}

/// Emit an operator spelling.
fn write_op_spelling(w: &mut Vec<u8>, op: Op)
    ensures
        final(w)@ == old(w)@ + sp_spelling(op),
{
    match op {
        Op::Ctor => {
            push_byte(w, ('c' as u8));
            push_byte(w, ('t' as u8));
            push_byte(w, ('o' as u8));
            push_byte(w, ('r' as u8));
            proof {
                assert(w@ =~= old(w)@ + sp_spelling(op));
            }
        },
        Op::Dtor => {
            push_byte(w, ('d' as u8));
            push_byte(w, ('t' as u8));
            push_byte(w, ('o' as u8));
            push_byte(w, ('r' as u8));
            proof {
                assert(w@ =~= old(w)@ + sp_spelling(op));
            }
        },
        Op::New => {
            push_byte(w, (' ' as u8));
            push_byte(w, ('n' as u8));
            push_byte(w, ('e' as u8));
            push_byte(w, ('w' as u8));
            proof {
                assert(w@ =~= old(w)@ + sp_spelling(op));
            }
        },
        Op::Delete => {
            push_byte(w, (' ' as u8));
            push_byte(w, ('d' as u8));
            push_byte(w, ('e' as u8));
            push_byte(w, ('l' as u8));
            push_byte(w, ('e' as u8));
            push_byte(w, ('t' as u8));
            push_byte(w, ('e' as u8));
            proof {
                assert(w@ =~= old(w)@ + sp_spelling(op));
            }
        },
        Op::Assign => {
            push_byte(w, ('=' as u8));
            proof {
                assert(w@ =~= old(w)@ + sp_spelling(op));
            }
        },
        Op::Shr => {
            push_byte(w, ('>' as u8));
            push_byte(w, ('>' as u8));
            proof {
                assert(w@ =~= old(w)@ + sp_spelling(op));
            }
        },
        Op::Shl => {
            push_byte(w, ('<' as u8));
            push_byte(w, ('<' as u8));
            proof {
                assert(w@ =~= old(w)@ + sp_spelling(op));
            }
        },
        Op::Not => {
            push_byte(w, ('!' as u8));
            proof {
                assert(w@ =~= old(w)@ + sp_spelling(op));
            }
        },
        Op::Equal => {
            push_byte(w, ('=' as u8));
            push_byte(w, ('=' as u8));
            proof {
                assert(w@ =~= old(w)@ + sp_spelling(op));
            }
        },
        Op::NotEqual => {
            push_byte(w, ('!' as u8));
            push_byte(w, ('=' as u8));
            proof {
                assert(w@ =~= old(w)@ + sp_spelling(op));
            }
        },
        Op::Subscript => {
            push_byte(w, ('[' as u8));
            push_byte(w, (']' as u8));
            proof {
                assert(w@ =~= old(w)@ + sp_spelling(op));
            }
        },
        Op::Arrow => {
            push_byte(w, ('-' as u8));
            push_byte(w, ('>' as u8));
            proof {
                assert(w@ =~= old(w)@ + sp_spelling(op));
            }
        },
        Op::Deref => {
            push_byte(w, ('*' as u8));
            proof {
                assert(w@ =~= old(w)@ + sp_spelling(op));
            }
        },
        Op::Increment => {
            push_byte(w, ('+' as u8));
            push_byte(w, ('+' as u8));
            proof {
                assert(w@ =~= old(w)@ + sp_spelling(op));
            }
        },
        Op::Decrement => {
            push_byte(w, ('-' as u8));
            push_byte(w, ('-' as u8));
            proof {
                assert(w@ =~= old(w)@ + sp_spelling(op));
            }
        },
        Op::Subtract => {
            push_byte(w, ('-' as u8));
            proof {
                assert(w@ =~= old(w)@ + sp_spelling(op));
            }
        },
        Op::Add => {
            push_byte(w, ('+' as u8));
            proof {
                assert(w@ =~= old(w)@ + sp_spelling(op));
            }
        },
        Op::AddressOf => {
            push_byte(w, ('&' as u8));
            proof {
                assert(w@ =~= old(w)@ + sp_spelling(op));
            }
        },
        Op::ArrowStar => {
            push_byte(w, ('-' as u8));
            push_byte(w, ('>' as u8));
            push_byte(w, ('*' as u8));
            proof {
                assert(w@ =~= old(w)@ + sp_spelling(op));
            }
        },
        Op::Divide => {
            push_byte(w, ('/' as u8));
            proof {
                assert(w@ =~= old(w)@ + sp_spelling(op));
            }
        },
        Op::Modulus => {
            push_byte(w, ('%' as u8));
            proof {
                assert(w@ =~= old(w)@ + sp_spelling(op));
            }
        },
        Op::Less => {
            push_byte(w, ('<' as u8));
            proof {
                assert(w@ =~= old(w)@ + sp_spelling(op));
            }
        },
        Op::LessEqual => {
            push_byte(w, ('<' as u8));
            push_byte(w, ('=' as u8));
            proof {
                assert(w@ =~= old(w)@ + sp_spelling(op));
            }
        },
        Op::Greater => {
            push_byte(w, ('>' as u8));
            proof {
                assert(w@ =~= old(w)@ + sp_spelling(op));
            }
        },
        Op::GreaterEqual => {
            push_byte(w, ('>' as u8));
            push_byte(w, ('=' as u8));
            proof {
                assert(w@ =~= old(w)@ + sp_spelling(op));
            }
        },
        Op::Comma => {
            push_byte(w, (',' as u8));
            proof {
                assert(w@ =~= old(w)@ + sp_spelling(op));
            }
        },
        Op::Call => {
            push_byte(w, ('(' as u8));
            push_byte(w, (')' as u8));
            proof {
                assert(w@ =~= old(w)@ + sp_spelling(op));
            }
        },
        Op::BitNot => {
            push_byte(w, ('~' as u8));
            proof {
                assert(w@ =~= old(w)@ + sp_spelling(op));
            }
        },
        Op::BitXor => {
            push_byte(w, ('^' as u8));
            proof {
                assert(w@ =~= old(w)@ + sp_spelling(op));
            }
        },
        Op::BitOr => {
            push_byte(w, ('|' as u8));
            proof {
                assert(w@ =~= old(w)@ + sp_spelling(op));
            }
        },
        Op::LogicalAnd => {
            push_byte(w, ('&' as u8));
            push_byte(w, ('&' as u8));
            proof {
                assert(w@ =~= old(w)@ + sp_spelling(op));
            }
        },
        Op::LogicalOr => {
            push_byte(w, ('|' as u8));
            push_byte(w, ('|' as u8));
            proof {
                assert(w@ =~= old(w)@ + sp_spelling(op));
            }
        },
        Op::MulAssign => {
            push_byte(w, ('*' as u8));
            push_byte(w, ('=' as u8));
            proof {
                assert(w@ =~= old(w)@ + sp_spelling(op));
            }
        },
        Op::AddAssign => {
            push_byte(w, ('+' as u8));
            push_byte(w, ('=' as u8));
            proof {
                assert(w@ =~= old(w)@ + sp_spelling(op));
            }
        },
        Op::SubAssign => {
            push_byte(w, ('-' as u8));
            push_byte(w, ('=' as u8));
            proof {
                assert(w@ =~= old(w)@ + sp_spelling(op));
            }
        },
        Op::DivAssign => {
            push_byte(w, ('/' as u8));
            push_byte(w, ('=' as u8));
            proof {
                assert(w@ =~= old(w)@ + sp_spelling(op));
            }
        },
        Op::ModAssign => {
            push_byte(w, ('%' as u8));
            push_byte(w, ('=' as u8));
            proof {
                assert(w@ =~= old(w)@ + sp_spelling(op));
            }
        },
        Op::ShrAssign => {
            push_byte(w, ('>' as u8));
            push_byte(w, ('>' as u8));
            push_byte(w, ('=' as u8));
            proof {
                assert(w@ =~= old(w)@ + sp_spelling(op));
            }
        },
        Op::ShlAssign => {
            push_byte(w, ('<' as u8));
            push_byte(w, ('<' as u8));
            push_byte(w, ('=' as u8));
            proof {
                assert(w@ =~= old(w)@ + sp_spelling(op));
            }
        },
        Op::AndAssign => {
            push_byte(w, ('&' as u8));
            push_byte(w, ('=' as u8));
            proof {
                assert(w@ =~= old(w)@ + sp_spelling(op));
            }
        },
        Op::OrAssign => {
            push_byte(w, ('|' as u8));
            push_byte(w, ('=' as u8));
            proof {
                assert(w@ =~= old(w)@ + sp_spelling(op));
            }
        },
        Op::XorAssign => {
            push_byte(w, ('^' as u8));
            push_byte(w, ('=' as u8));
            proof {
                assert(w@ =~= old(w)@ + sp_spelling(op));
            }
        },
        Op::NewArray => {
            push_byte(w, (' ' as u8));
            push_byte(w, ('n' as u8));
            push_byte(w, ('e' as u8));
            push_byte(w, ('w' as u8));
            push_byte(w, ('[' as u8));
            push_byte(w, (']' as u8));
            proof {
                assert(w@ =~= old(w)@ + sp_spelling(op));
            }
        },
        Op::DeleteArray => {
            push_byte(w, (' ' as u8));
            push_byte(w, ('d' as u8));
            push_byte(w, ('e' as u8));
            push_byte(w, ('l' as u8));
            push_byte(w, ('e' as u8));
            push_byte(w, ('t' as u8));
            push_byte(w, ('e' as u8));
            push_byte(w, ('[' as u8));
            push_byte(w, (']' as u8));
            proof {
                assert(w@ =~= old(w)@ + sp_spelling(op));
            }
        },
        Op::CoAwait => {
            push_byte(w, (' ' as u8));
            push_byte(w, ('c' as u8));
            push_byte(w, ('o' as u8));
            push_byte(w, ('_' as u8));
            push_byte(w, ('a' as u8));
            push_byte(w, ('w' as u8));
            push_byte(w, ('a' as u8));
            push_byte(w, ('i' as u8));
            push_byte(w, ('t' as u8));
            proof {
                assert(w@ =~= old(w)@ + sp_spelling(op));
            }
        },
    }
}


/// Whether a pointer or reference to this type needs grouping parentheses.
fn grouped_x(t: &Type) -> (r: bool)
    ensures
        r == sp_grouped(type_v(*t)),
{
    match t {
        Type::MemberFunction(_, _, _) => true,
        Type::NonMemberFunction(_, _, _) => true,
        Type::Array(_, _, _) => true,
        _ => false,
    }
}

/// Emit a separating space where the last byte asks for one.
pub fn write_space(w: &mut Vec<u8>)
    ensures
        final(w)@ == sp_space(old(w)@),
{
    let n = w.len();
    if n > 0 {
        let c = w[n - 1];
        if (('a' as u8) <= c && c <= ('z' as u8)) || (('A' as u8) <= c && c <= ('Z' as u8)) || c
            == ('*' as u8) || c == ('&' as u8) {
            push_byte(w, ' ' as u8);
        }
    }
}

/// Emit a trailing `const` where the storage class asks for one.
fn write_const(w: &mut Vec<u8>, sc: StorageClass)
    ensures
        final(w)@ == sp_const(old(w)@, sc),
{
    if sc.is_const {
        write_space(w);
        push_byte(w, 'c' as u8);
        push_byte(w, 'o' as u8);
        push_byte(w, 'n' as u8);
        push_byte(w, 's' as u8);
        push_byte(w, 't' as u8);
    }
}

/// Write the "first half" of a given type: everything that precedes the
/// declared name in the declarator.
pub fn write_pre(w: &mut Vec<u8>, t: &Type)
    ensures
        final(w)@ == sp_pre(old(w)@, type_v(*t)),
    decreases t, 0int, 0int,
{
    match t {
        Type::NoReturn => {},
        Type::MemberFunction(_p, _sc, ret) => {
            write_pre(w, &**ret);
        },
        Type::NonMemberFunction(_p, _sc, ret) => {
            write_pre(w, &**ret);
        },
        Type::Ptr(inner, sc) => {
            write_pre(w, &**inner);
            if grouped_x(&**inner) {
                push_byte(w, '(' as u8);
            }
            write_space(w);
            push_byte(w, '*' as u8);
            write_const(w, *sc);
        },
        Type::Ref(inner, sc) => {
            write_pre(w, &**inner);
            if grouped_x(&**inner) {
                push_byte(w, '(' as u8);
            }
            write_space(w);
            push_byte(w, '&' as u8);
            write_const(w, *sc);
        },
        Type::Array(_len, inner, sc) => {
            write_pre(w, &**inner);
            write_const(w, *sc);
        },
        Type::Struct(ns, sc) => {
            write_class(w, ns, ClassKind::Struct);
            write_const(w, *sc);
        },
        Type::Union(ns, sc) => {
            write_class(w, ns, ClassKind::Union);
            write_const(w, *sc);
        },
        Type::Class(ns, sc) => {
            write_class(w, ns, ClassKind::Class);
            write_const(w, *sc);
        },
        Type::Enum(ns, sc) => {
            write_class(w, ns, ClassKind::Enum);
            write_const(w, *sc);
        },
        Type::Void(sc) => {
            push_byte(w, 'v' as u8);
            push_byte(w, 'o' as u8);
            push_byte(w, 'i' as u8);
            push_byte(w, 'd' as u8);
            write_const(w, *sc);
        },
        Type::Bool(sc) => {
            push_byte(w, 'b' as u8);
            push_byte(w, 'o' as u8);
            push_byte(w, 'o' as u8);
            push_byte(w, 'l' as u8);
            write_const(w, *sc);
        },
        Type::Char(sc) => {
            push_byte(w, 'c' as u8);
            push_byte(w, 'h' as u8);
            push_byte(w, 'a' as u8);
            push_byte(w, 'r' as u8);
            write_const(w, *sc);
        },
        Type::Schar(sc) => {
            push_byte(w, 's' as u8);
            push_byte(w, 'i' as u8);
            push_byte(w, 'g' as u8);
            push_byte(w, 'n' as u8);
            push_byte(w, 'e' as u8);
            push_byte(w, 'd' as u8);
            push_byte(w, ' ' as u8);
            push_byte(w, 'c' as u8);
            push_byte(w, 'h' as u8);
            push_byte(w, 'a' as u8);
            push_byte(w, 'r' as u8);
            write_const(w, *sc);
        },
        Type::Uchar(sc) => {
            push_byte(w, 'u' as u8);
            push_byte(w, 'n' as u8);
            push_byte(w, 's' as u8);
            push_byte(w, 'i' as u8);
            push_byte(w, 'g' as u8);
            push_byte(w, 'n' as u8);
            push_byte(w, 'e' as u8);
            push_byte(w, 'd' as u8);
            push_byte(w, ' ' as u8);
            push_byte(w, 'c' as u8);
            push_byte(w, 'h' as u8);
            push_byte(w, 'a' as u8);
            push_byte(w, 'r' as u8);
            write_const(w, *sc);
        },
        Type::Short(sc) => {
            push_byte(w, 's' as u8);
            push_byte(w, 'h' as u8);
            push_byte(w, 'o' as u8);
            push_byte(w, 'r' as u8);
            push_byte(w, 't' as u8);
            write_const(w, *sc);
        },
        Type::Ushort(sc) => {
            push_byte(w, 'u' as u8);
            push_byte(w, 'n' as u8);
            push_byte(w, 's' as u8);
            push_byte(w, 'i' as u8);
            push_byte(w, 'g' as u8);
            push_byte(w, 'n' as u8);
            push_byte(w, 'e' as u8);
            push_byte(w, 'd' as u8);
            push_byte(w, ' ' as u8);
            push_byte(w, 's' as u8);
            push_byte(w, 'h' as u8);
            push_byte(w, 'o' as u8);
            push_byte(w, 'r' as u8);
            push_byte(w, 't' as u8);
            write_const(w, *sc);
        },
        Type::Int(sc) => {
            push_byte(w, 'i' as u8);
            push_byte(w, 'n' as u8);
            push_byte(w, 't' as u8);
            write_const(w, *sc);
        },
        Type::Uint(sc) => {
            push_byte(w, 'u' as u8);
            push_byte(w, 'n' as u8);
            push_byte(w, 's' as u8);
            push_byte(w, 'i' as u8);
            push_byte(w, 'g' as u8);
            push_byte(w, 'n' as u8);
            push_byte(w, 'e' as u8);
            push_byte(w, 'd' as u8);
            push_byte(w, ' ' as u8);
            push_byte(w, 'i' as u8);
            push_byte(w, 'n' as u8);
            push_byte(w, 't' as u8);
            write_const(w, *sc);
        },
        Type::Long(sc) => {
            push_byte(w, 'l' as u8);
            push_byte(w, 'o' as u8);
            push_byte(w, 'n' as u8);
            push_byte(w, 'g' as u8);
            write_const(w, *sc);
        },
        Type::Ulong(sc) => {
            push_byte(w, 'u' as u8);
            push_byte(w, 'n' as u8);
            push_byte(w, 's' as u8);
            push_byte(w, 'i' as u8);
            push_byte(w, 'g' as u8);
            push_byte(w, 'n' as u8);
            push_byte(w, 'e' as u8);
            push_byte(w, 'd' as u8);
            push_byte(w, ' ' as u8);
            push_byte(w, 'l' as u8);
            push_byte(w, 'o' as u8);
            push_byte(w, 'n' as u8);
            push_byte(w, 'g' as u8);
            write_const(w, *sc);
        },
        Type::Int64(sc) => {
            push_byte(w, 'i' as u8);
            push_byte(w, 'n' as u8);
            push_byte(w, 't' as u8);
            push_byte(w, '6' as u8);
            push_byte(w, '4' as u8);
            push_byte(w, '_' as u8);
            push_byte(w, 't' as u8);
            write_const(w, *sc);
        },
        Type::Uint64(sc) => {
            push_byte(w, 'u' as u8);
            push_byte(w, 'i' as u8);
            push_byte(w, 'n' as u8);
            push_byte(w, 't' as u8);
            push_byte(w, '6' as u8);
            push_byte(w, '4' as u8);
            push_byte(w, '_' as u8);
            push_byte(w, 't' as u8);
            write_const(w, *sc);
        },
        Type::Wchar(sc) => {
            push_byte(w, 'w' as u8);
            push_byte(w, 'c' as u8);
            push_byte(w, 'h' as u8);
            push_byte(w, 'a' as u8);
            push_byte(w, 'r' as u8);
            push_byte(w, '_' as u8);
            push_byte(w, 't' as u8);
            write_const(w, *sc);
        },
        Type::Float(sc) => {
            push_byte(w, 'f' as u8);
            push_byte(w, 'l' as u8);
            push_byte(w, 'o' as u8);
            push_byte(w, 'a' as u8);
            push_byte(w, 't' as u8);
            write_const(w, *sc);
        },
        Type::Double(sc) => {
            push_byte(w, 'd' as u8);
            push_byte(w, 'o' as u8);
            push_byte(w, 'u' as u8);
            push_byte(w, 'b' as u8);
            push_byte(w, 'l' as u8);
            push_byte(w, 'e' as u8);
            write_const(w, *sc);
        },
        Type::Ldouble(sc) => {
            push_byte(w, 'l' as u8);
            push_byte(w, 'o' as u8);
            push_byte(w, 'n' as u8);
            push_byte(w, 'g' as u8);
            push_byte(w, ' ' as u8);
            push_byte(w, 'd' as u8);
            push_byte(w, 'o' as u8);
            push_byte(w, 'u' as u8);
            push_byte(w, 'b' as u8);
            push_byte(w, 'l' as u8);
            push_byte(w, 'e' as u8);
            write_const(w, *sc);
        },
    }
}

/// Write the "second half" of a given type: everything that follows the
/// declared name in the declarator.
pub fn write_post(w: &mut Vec<u8>, t: &Type)
    ensures
        final(w)@ == sp_post(old(w)@, type_v(*t)),
    decreases t, 0int, 0int,
{
    match t {
        Type::MemberFunction(p, sc, _ret) => {
            push_byte(w, '(' as u8);
            write_params(w, p);
            push_byte(w, ')' as u8);
            if sc.is_const {
                push_byte(w, 'c' as u8);
                push_byte(w, 'o' as u8);
                push_byte(w, 'n' as u8);
                push_byte(w, 's' as u8);
                push_byte(w, 't' as u8);
            }
        },
        Type::NonMemberFunction(p, sc, _ret) => {
            push_byte(w, '(' as u8);
            write_params(w, p);
            push_byte(w, ')' as u8);
            if sc.is_const {
                push_byte(w, 'c' as u8);
                push_byte(w, 'o' as u8);
                push_byte(w, 'n' as u8);
                push_byte(w, 's' as u8);
                push_byte(w, 't' as u8);
            }
        },
        Type::Ptr(inner, _sc) => {
            if grouped_x(&**inner) {
                push_byte(w, ')' as u8);
            }
            write_post(w, &**inner);
        },
        Type::Ref(inner, _sc) => {
            if grouped_x(&**inner) {
                push_byte(w, ')' as u8);
            }
            write_post(w, &**inner);
        },
        Type::Array(len, inner, _sc) => {
            push_byte(w, '[' as u8);
            write_dec(w, *len);
            push_byte(w, ']' as u8);
            write_post(w, &**inner);
        },
        _ => {},
    }
}

/// Write a function or template parameter list, comma-separated.
pub fn write_params(w: &mut Vec<u8>, p: &Params)
    ensures
        final(w)@ == sp_params_out(old(w)@, params_v(*p)),
    decreases p, 0int, 0int,
{
    proof {
        lemma_types_v_props(p.types@);
    }
    let ghost tsv = params_v(*p);
    let n = p.types.len();
    let mut i: usize = 0;
    proof {
        assert(tsv.skip(0int) =~= tsv);
    }
    while i + 1 < n
        invariant
            n == p.types@.len(),
            n == tsv.len(),
            i < n || (i == 0 && n == 0),
            forall|j: int| 0 <= j < n ==> tsv[j] == type_v(p.types@[j]),
            sp_params_out(old(w)@, tsv) == sp_params_out(w@, tsv.skip(i as int)),
        decreases n - i,
    {
        proof {
            assert(tsv.skip(i as int)[0] == tsv[i as int]);
        }
        write_pre(w, &p.types[i]);
        write_post(w, &p.types[i]);
        push_byte(w, ',' as u8);
        proof {
            assert(tsv.skip(i as int).skip(1) =~= tsv.skip(i as int + 1));
        }
        i = i + 1;
    }
    if n > 0 {
        proof {
            assert(tsv.skip(i as int).len() == 1);
            assert(tsv.skip(i as int)[0] == tsv[i as int]);
        }
        write_pre(w, &p.types[i]);
        write_post(w, &p.types[i]);
    }
}

/// Write a user-defined type: its kind keyword, a space, its name.
pub fn write_class(w: &mut Vec<u8>, names: &NameSequence, kind: ClassKind)
    ensures
        final(w)@ == sp_class_out(old(w)@, kind, names_v(names.names@)),
    decreases names, 1int, 0int,
{
    match kind {
        ClassKind::Struct => {
            push_byte(w, 's' as u8);
            push_byte(w, 't' as u8);
            push_byte(w, 'r' as u8);
            push_byte(w, 'u' as u8);
            push_byte(w, 'c' as u8);
            push_byte(w, 't' as u8);
        },
        ClassKind::Union => {
            push_byte(w, 'u' as u8);
            push_byte(w, 'n' as u8);
            push_byte(w, 'i' as u8);
            push_byte(w, 'o' as u8);
            push_byte(w, 'n' as u8);
        },
        ClassKind::Class => {
            push_byte(w, 'c' as u8);
            push_byte(w, 'l' as u8);
            push_byte(w, 'a' as u8);
            push_byte(w, 's' as u8);
            push_byte(w, 's' as u8);
        },
        ClassKind::Enum => {
            push_byte(w, 'e' as u8);
            push_byte(w, 'n' as u8);
            push_byte(w, 'u' as u8);
            push_byte(w, 'm' as u8);
        },
    }
    proof {
        assert(w@ =~= old(w)@ + sp_kind_kw(kind));
    }
    push_byte(w, ' ' as u8);
    write_name(w, names);
}

/// Write template arguments in angle brackets, where there are any.
pub fn write_tmpl_params(w: &mut Vec<u8>, params: &Option<Params>)
    ensures
        final(w)@ == sp_tmpl(old(w)@, opt_params_v(*params)),
    decreases params, 0int, 1int,
{
    match params {
        Some(p) => {
            push_byte(w, '<' as u8);
            write_params(w, p);
            push_byte(w, '>' as u8);
        },
        None => {},
    }
}

/// Write a decoded qualified name: enclosing scopes outermost-first, then
/// the innermost segment with its constructor, destructor or operator
/// rendering.
pub fn write_name(w: &mut Vec<u8>, names: &NameSequence)
    ensures
        final(w)@ == sp_name_out(old(w)@, names_v(names.names@)),
    decreases names, 0int, 0int,
{
    proof {
        lemma_names_v_props(names.names@);
    }
    let ghost nsv = names_v(names.names@);
    write_space(w);
    let ghost c1 = w@;
    let n = names.names.len();
    if n == 0 {
        return ;
    }
    let mut i: usize = n - 1;
    while i >= 1
        invariant
            n == names.names@.len(),
            n == nsv.len(),
            n > 0,
            i <= n - 1,
            forall|j: int| 0 <= j < n ==> nsv[j] == name_v(names.names@[j]),
            sp_outer(c1, nsv, n - 1) == sp_outer(w@, nsv, i as int),
        decreases i,
    {
        let ghost w_pre = w@;
        let nm = &names.names[i];
        push_bytes(w, nm.name_str);
        write_tmpl_params(w, &nm.template_params);
        push_byte(w, ':' as u8);
        push_byte(w, ':' as u8);
        proof {
            assert(w@ == sp_outer_seg(w_pre, nsv[i as int]));
        }
        i = i - 1;
    }
    // the innermost segment
    let first = &names.names[0];
    match first.op {
        None => {
            push_bytes(w, first.name_str);
            write_tmpl_params(w, &first.template_params);
        },
        Some(op) => {
            if matches!(op, Op::Ctor) || matches!(op, Op::Dtor) {
                push_bytes(w, first.name_str);
                match &first.template_params {
                    Some(ps) => {
                        write_params(w, ps);
                    },
                    None => {},
                }
                push_byte(w, ':' as u8);
                push_byte(w, ':' as u8);
                if matches!(op, Op::Dtor) {
                    push_byte(w, '~' as u8);
                }
                push_bytes(w, first.name_str);
            } else {
                if first.name_str.len() > 0 {
                    push_bytes(w, first.name_str);
                    push_byte(w, ':' as u8);
                    push_byte(w, ':' as u8);
                }
                push_byte(w, 'o' as u8);
                push_byte(w, 'p' as u8);
                push_byte(w, 'e' as u8);
                push_byte(w, 'r' as u8);
                push_byte(w, 'a' as u8);
                push_byte(w, 't' as u8);
                push_byte(w, 'o' as u8);
                push_byte(w, 'r' as u8);
                write_op_spelling(w, op);
            }
        },
    }
}

/// Convert a decoded tree to its declaration string. The printer cannot
/// fail on a well-formed tree: it only appends bytes.
pub fn serialize(w: &mut Vec<u8>, parse_result: &ParseResult)
    ensures
        final(w)@ == sp_post(
            sp_name_out(
                sp_pre(old(w)@, type_v(parse_result.symbol_type)),
                names_v(parse_result.symbol.names@),
            ),
            type_v(parse_result.symbol_type),
        ),
{
    write_pre(w, &parse_result.symbol_type);
    write_name(w, &parse_result.symbol);
    write_post(w, &parse_result.symbol_type);
}

} // verus!
