//! The declaration tree a successful decode produces, together with its
//! ghost image: the mathematical tree the contracts speak about.
use vstd::prelude::*;

use crate::flags::StorageClass;

verus! {

/// An overloaded operator or special member, as named by its one- or
/// two-letter code.
#[derive(Clone, Copy, Debug, PartialEq, Eq, Structural)]
pub enum Op {
    Ctor,
    Dtor,
    New,
    Delete,
    Assign,
    Shr,
    Shl,
    Not,
    Equal,
    NotEqual,
    Subscript,
    Arrow,
    Deref,
    Increment,
    Decrement,
    Subtract,
    Add,
    AddressOf,
    ArrowStar,
    Divide,
    Modulus,
    Less,
    LessEqual,
    Greater,
    GreaterEqual,
    Comma,
    Call,
    BitNot,
    BitXor,
    BitOr,
    LogicalAnd,
    LogicalOr,
    MulAssign,
    AddAssign,
    SubAssign,
    DivAssign,
    ModAssign,
    ShrAssign,
    ShlAssign,
    AndAssign,
    OrAssign,
    XorAssign,
    NewArray,
    DeleteArray,
    CoAwait,
}

/// One segment of a qualified identifier. The raw identifier bytes are
/// borrowed from the input for the lifetime of the decode call.
/// `template_params` absent means "not a template"; present but empty means
/// "template with zero arguments" — the two are distinct.
#[derive(Debug)]
pub struct Name<'a> {
    pub name_str: &'a [u8],
    pub op: Option<Op>,
    pub template_params: Option<Params<'a>>,
}

/// An ordered identifier chain, stored innermost-first as encoded.
#[derive(Debug)]
pub struct NameSequence<'a> {
    pub names: Vec<Name<'a>>,
}

/// An ordered type list, used both for function parameters and for
/// template arguments.
#[derive(Debug)]
pub struct Params<'a> {
    pub types: Vec<Type<'a>>,
}

/// The type tree. All nested types are exclusively owned: the grammar is
/// read strictly top-down, so the tree has no sharing and no cycles.
#[derive(Debug)]
pub enum Type<'a> {
    NoReturn,
    MemberFunction(Params<'a>, StorageClass, Box<Type<'a>>),
    NonMemberFunction(Params<'a>, StorageClass, Box<Type<'a>>),
    Ptr(Box<Type<'a>>, StorageClass),
    Ref(Box<Type<'a>>, StorageClass),
    Array(i32, Box<Type<'a>>, StorageClass),
    Struct(NameSequence<'a>, StorageClass),
    Union(NameSequence<'a>, StorageClass),
    Class(NameSequence<'a>, StorageClass),
    Enum(NameSequence<'a>, StorageClass),
    Void(StorageClass),
    Bool(StorageClass),
    Char(StorageClass),
    Schar(StorageClass),
    Uchar(StorageClass),
    Short(StorageClass),
    Ushort(StorageClass),
    Int(StorageClass),
    Uint(StorageClass),
    Long(StorageClass),
    Ulong(StorageClass),
    Int64(StorageClass),
    Uint64(StorageClass),
    Wchar(StorageClass),
    Float(StorageClass),
    Double(StorageClass),
    Ldouble(StorageClass),
}

/// The decoded symbol: its qualified name and its type.
#[derive(Debug)]
pub struct ParseResult<'a> {
    pub symbol: NameSequence<'a>,
    pub symbol_type: Type<'a>,
}

impl<'a> Params<'a> {
    pub fn empty() -> (r: Params<'a>)
        ensures
            params_v(r) == Seq::<TypeV>::empty(),
    {
        let r = Params { types: Vec::new() };
        proof {
            assert(params_v(r) =~= Seq::<TypeV>::empty());
        }
        r
    }
}

/// The ghost image of a `Name`: identifier bytes as a sequence.
pub struct NameV {
    pub name: Seq<u8>,
    pub op: Option<Op>,
    pub tmpl: Option<Seq<TypeV>>,
}

/// The ghost image of a `Type`.
pub enum TypeV {
    NoReturn,
    MemberFunction(Seq<TypeV>, StorageClass, Box<TypeV>),
    NonMemberFunction(Seq<TypeV>, StorageClass, Box<TypeV>),
    Ptr(Box<TypeV>, StorageClass),
    Ref(Box<TypeV>, StorageClass),
    Array(int, Box<TypeV>, StorageClass),
    Struct(Seq<NameV>, StorageClass),
    Union(Seq<NameV>, StorageClass),
    Class(Seq<NameV>, StorageClass),
    Enum(Seq<NameV>, StorageClass),
    Void(StorageClass),
    Bool(StorageClass),
    Char(StorageClass),
    Schar(StorageClass),
    Uchar(StorageClass),
    Short(StorageClass),
    Ushort(StorageClass),
    Int(StorageClass),
    Uint(StorageClass),
    Long(StorageClass),
    Ulong(StorageClass),
    Int64(StorageClass),
    Uint64(StorageClass),
    Wchar(StorageClass),
    Float(StorageClass),
    Double(StorageClass),
    Ldouble(StorageClass),
}

/// The ghost image of a decoded type.
pub open spec fn type_v<'a>(t: Type<'a>) -> TypeV
    decreases t,
{
    match t {
        Type::NoReturn => TypeV::NoReturn,
        Type::MemberFunction(p, sc, ret) => TypeV::MemberFunction(
            types_v(p.types@),
            sc,
            Box::new(type_v(*ret)),
        ),
        Type::NonMemberFunction(p, sc, ret) => TypeV::NonMemberFunction(
            types_v(p.types@),
            sc,
            Box::new(type_v(*ret)),
        ),
        Type::Ptr(inner, sc) => TypeV::Ptr(Box::new(type_v(*inner)), sc),
        Type::Ref(inner, sc) => TypeV::Ref(Box::new(type_v(*inner)), sc),
        Type::Array(len, inner, sc) => TypeV::Array(len as int, Box::new(type_v(*inner)), sc),
        Type::Struct(ns, sc) => TypeV::Struct(names_v(ns.names@), sc),
        Type::Union(ns, sc) => TypeV::Union(names_v(ns.names@), sc),
        Type::Class(ns, sc) => TypeV::Class(names_v(ns.names@), sc),
        Type::Enum(ns, sc) => TypeV::Enum(names_v(ns.names@), sc),
        Type::Void(sc) => TypeV::Void(sc),
        Type::Bool(sc) => TypeV::Bool(sc),
        Type::Char(sc) => TypeV::Char(sc),
        Type::Schar(sc) => TypeV::Schar(sc),
        Type::Uchar(sc) => TypeV::Uchar(sc),
        Type::Short(sc) => TypeV::Short(sc),
        Type::Ushort(sc) => TypeV::Ushort(sc),
        Type::Int(sc) => TypeV::Int(sc),
        Type::Uint(sc) => TypeV::Uint(sc),
        Type::Long(sc) => TypeV::Long(sc),
        Type::Ulong(sc) => TypeV::Ulong(sc),
        Type::Int64(sc) => TypeV::Int64(sc),
        Type::Uint64(sc) => TypeV::Uint64(sc),
        Type::Wchar(sc) => TypeV::Wchar(sc),
        Type::Float(sc) => TypeV::Float(sc),
        Type::Double(sc) => TypeV::Double(sc),
        Type::Ldouble(sc) => TypeV::Ldouble(sc),
    }
}

pub open spec fn types_v<'a>(ts: Seq<Type<'a>>) -> Seq<TypeV>
    decreases ts,
{
    if ts.len() == 0 {
        Seq::empty()
    } else {
        types_v(ts.drop_last()).push(type_v(ts.last()))
    }
}

pub open spec fn name_v<'a>(n: Name<'a>) -> NameV
    decreases n,
{
    NameV {
        name: n.name_str@,
        op: n.op,
        tmpl: match n.template_params {
            Some(p) => Some(types_v(p.types@)),
            None => None,
        },
    }
}

pub open spec fn names_v<'a>(ns: Seq<Name<'a>>) -> Seq<NameV>
    decreases ns,
{
    if ns.len() == 0 {
        Seq::empty()
    } else {
        names_v(ns.drop_last()).push(name_v(ns.last()))
    }
}

pub open spec fn params_v<'a>(p: Params<'a>) -> Seq<TypeV> {
    types_v(p.types@)
}

pub open spec fn opt_params_v<'a>(p: Option<Params<'a>>) -> Option<Seq<TypeV>> {
    match p {
        Some(p) => Some(types_v(p.types@)),
        None => None,
    }
}

pub proof fn lemma_types_v_push<'a>(ts: Seq<Type<'a>>, t: Type<'a>)
    ensures
        types_v(ts.push(t)) == types_v(ts).push(type_v(t)),
{
    assert(ts.push(t).drop_last() =~= ts);
    assert(ts.push(t).last() == t);
}

pub proof fn lemma_names_v_push<'a>(ns: Seq<Name<'a>>, n: Name<'a>)
    ensures
        names_v(ns.push(n)) == names_v(ns).push(name_v(n)),
{
    assert(ns.push(n).drop_last() =~= ns);
    assert(ns.push(n).last() == n);
}

pub proof fn lemma_types_v_props<'a>(ts: Seq<Type<'a>>)
    ensures
        types_v(ts).len() == ts.len(),
        forall|i: int| 0 <= i < ts.len() ==> types_v(ts)[i] == type_v(ts[i]),
    decreases ts.len(),
{
    if ts.len() > 0 {
        lemma_types_v_props(ts.drop_last());
    }
}

pub proof fn lemma_names_v_props<'a>(ns: Seq<Name<'a>>)
    ensures
        names_v(ns).len() == ns.len(),
        forall|i: int| 0 <= i < ns.len() ==> names_v(ns)[i] == name_v(ns[i]),
    decreases ns.len(),
{
    if ns.len() > 0 {
        lemma_names_v_props(ns.drop_last());
    }
}

} // verus!
