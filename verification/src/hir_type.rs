//! Model of the static types the external type oracle reports. A static
//! type is the set of concrete object families a value might belong to,
//! encoded as a bit mask; the subtype relation is mask inclusion. The core
//! only ever classifies these types, so the mask is all it keeps.

use vstd::prelude::*;

verus! {

/// Small (immediate) integers.
pub const TY_FIXNUM: u32 = 0x1;
/// Heap-allocated big integers.
pub const TY_BIGNUM: u32 = 0x2;
/// Floating-point numbers.
pub const TY_FLOAT: u32 = 0x4;
/// Indexed containers.
pub const TY_ARRAY: u32 = 0x8;
/// Key-value containers.
pub const TY_HASH: u32 = 0x10;
/// Text objects.
pub const TY_STRING: u32 = 0x20;
/// Interned symbols.
pub const TY_SYMBOL: u32 = 0x40;
/// Range objects.
pub const TY_RANGE: u32 = 0x80;
/// Regular-expression objects.
pub const TY_REGEXP: u32 = 0x100;
/// Heap objects of any other class.
pub const TY_OTHER_HEAP: u32 = 0x200;
/// The nil singleton.
pub const TY_NIL: u32 = 0x400;
/// The boolean singletons.
pub const TY_BOOL: u32 = 0x800;
/// Any other immediate value.
pub const TY_OTHER_IMM: u32 = 0x1000;

/// Integers of either representation.
pub const TY_INTEGER: u32 = 0x3;
/// Every heap-allocated object family.
pub const TY_HEAP_OBJECT: u32 = 0x3fe;
/// Any value at all: the top of the lattice.
pub const TY_ANY: u32 = 0x1fff;

/// A lattice element from the type oracle: the union of the object families
/// a value could inhabit at run time.
#[derive(Clone, Copy, Debug, PartialEq, Eq, Hash, Structural)]
pub struct StaticType {
    pub mask: u32,
}

impl StaticType {
    /// Every family `self` admits is also admitted by `other`.
    pub open spec fn spec_is_subtype(self, other: StaticType) -> bool {
        self.mask & !other.mask == 0
    }

    /// The union type over the families in `mask`.
    pub fn from_mask(mask: u32) -> (r: StaticType)
        ensures
            r.mask == mask,
    {
        StaticType { mask }
    }

    /// Whether every value of `self` is also a value of `other`.
    pub fn is_subtype(&self, other: &StaticType) -> (r: bool)
        ensures
            r == self.spec_is_subtype(*other),
    {
        self.mask & !other.mask == 0
    }
}

} // verus!
