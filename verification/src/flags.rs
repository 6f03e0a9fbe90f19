//! The small flag sets attached to decoded entities: storage classes on
//! types, function classes and calling conventions on member functions.
use vstd::prelude::*;

verus! {

/// The qualifier set a type node carries. The grammar in this crate only
/// ever sets `is_const`, `is_volatile` and `is_far`; the remaining flags
/// belong to the data model and stay clear.
#[derive(Clone, Copy, Debug, PartialEq, Eq, Structural)]
pub struct StorageClass {
    pub is_const: bool,
    pub is_volatile: bool,
    pub is_far: bool,
    pub is_huge: bool,
    pub is_unaligned: bool,
    pub is_restrict: bool,
}

pub open spec fn spec_sc(is_const: bool, is_volatile: bool, is_far: bool) -> StorageClass {
    StorageClass {
        is_const,
        is_volatile,
        is_far,
        is_huge: false,
        is_unaligned: false,
        is_restrict: false,
    }
}

impl StorageClass {
    /// The combination of the three flags this grammar can set.
    pub fn flags(is_const: bool, is_volatile: bool, is_far: bool) -> (r: StorageClass)
        ensures
            r == spec_sc(is_const, is_volatile, is_far),
    {
        StorageClass {
            is_const,
            is_volatile,
            is_far,
            is_huge: false,
            is_unaligned: false,
            is_restrict: false,
        }
    }

    /// No qualifier set.
    pub fn empty() -> (r: StorageClass)
        ensures
            r == spec_sc(false, false, false),
    {
        StorageClass::flags(false, false, false)
    }
}

/// The access, linkage and dispatch flags a member-function byte encodes.
/// Decoded for fidelity to the grammar; the printer does not consume them.
#[derive(Clone, Copy, Debug, PartialEq, Eq, Structural)]
pub struct FuncClass {
    pub is_public: bool,
    pub is_protected: bool,
    pub is_private: bool,
    pub is_global: bool,
    pub is_static: bool,
    pub is_virtual: bool,
    pub is_far: bool,
}

pub open spec fn spec_fc(
    is_public: bool,
    is_protected: bool,
    is_private: bool,
    is_global: bool,
    is_static: bool,
    is_virtual: bool,
    is_far: bool,
) -> FuncClass {
    FuncClass { is_public, is_protected, is_private, is_global, is_static, is_virtual, is_far }
}

impl FuncClass {
    pub fn flags(
        is_public: bool,
        is_protected: bool,
        is_private: bool,
        is_global: bool,
        is_static: bool,
        is_virtual: bool,
        is_far: bool,
    ) -> (r: FuncClass)
        ensures
            r == spec_fc(
                is_public,
                is_protected,
                is_private,
                is_global,
                is_static,
                is_virtual,
                is_far,
            ),
    {
        FuncClass { is_public, is_protected, is_private, is_global, is_static, is_virtual, is_far }
    }
}

/// The argument-passing convention a signature names. Decoded and checked
/// against the known table; the printer does not consume it.
#[derive(Clone, Copy, Debug, PartialEq, Eq, Structural)]
pub enum CallingConv {
    Cdecl,
    Pascal,
    Thiscall,
    Stdcall,
    Fastcall,
    Regcall,
}

} // verus!
