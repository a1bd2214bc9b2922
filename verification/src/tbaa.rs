//! Type-based alias analysis: a coarse alias category for every static
//! type, a canonical identity for every load/store target, and a per-function
//! table answering conservative pairwise may-alias queries.
//!
//! The key soundness rule: two memory operations may be reordered or merged
//! only if the analysis proves they cannot refer to the same storage. Absence
//! of information is therefore always answered with "may alias".

use crate::hir::{Function, Insn, InsnId};
use crate::hir_type::{
    StaticType, TY_ARRAY, TY_FLOAT, TY_HASH, TY_HEAP_OBJECT, TY_INTEGER, TY_RANGE, TY_REGEXP,
    TY_STRING, TY_SYMBOL,
};
use std::collections::HashMap;
use vstd::prelude::*;

verus! {

broadcast use vstd::std_specs::hash::group_hash_axioms;

/// Categories of memory locations. Two field accesses in different
/// categories provably cannot refer to the same storage; `Unknown` is the
/// top element and may alias anything.
#[derive(Clone, Copy, Debug, PartialEq, Eq, Hash, Structural)]
pub enum AliasClass {
    /// Fields of indexed-container objects.
    ArrayIvar,
    /// Fields of key-value-container objects.
    HashIvar,
    /// Fields of text objects.
    StringIvar,
    /// Fields of integer objects (rare, but representable).
    IntegerIvar,
    /// Fields of floating-point objects.
    FloatIvar,
    /// Fields of symbol objects.
    SymbolIvar,
    /// Fields of range objects.
    RangeIvar,
    /// Fields of regular-expression objects.
    RegexpIvar,
    /// Fields of any other known heap object.
    OtherIvar,
    /// Global variables.
    GlobalVar,
    /// Local variables on the heap or in parent scopes.
    LocalVar,
    /// Unknown or mixed type: may alias with anything.
    Unknown,
}

impl AliasClass {
    /// Equal classes always may alias; `Unknown` may alias everything;
    /// distinct concrete classes never do.
    pub open spec fn spec_may_alias(a: AliasClass, b: AliasClass) -> bool {
        a == b || a is Unknown || b is Unknown
    }

    /// Whether two alias classes might refer to the same memory location.
    pub fn may_alias(&self, other: &AliasClass) -> (r: bool)
        ensures
            r == AliasClass::spec_may_alias(*self, *other),
    {
        if self == other {
            true
        } else {
            matches!(self, AliasClass::Unknown) || matches!(other, AliasClass::Unknown)
        }
    }

    /// The category of a field access on an object of type `t`, testing the
    /// recognized families most specific first.
    pub open spec fn spec_from_ivar_type(t: StaticType) -> AliasClass {
        if t.spec_is_subtype(StaticType { mask: TY_ARRAY }) {
            AliasClass::ArrayIvar
        } else if t.spec_is_subtype(StaticType { mask: TY_HASH }) {
            AliasClass::HashIvar
        } else if t.spec_is_subtype(StaticType { mask: TY_STRING }) {
            AliasClass::StringIvar
        } else if t.spec_is_subtype(StaticType { mask: TY_INTEGER }) {
            AliasClass::IntegerIvar
        } else if t.spec_is_subtype(StaticType { mask: TY_FLOAT }) {
            AliasClass::FloatIvar
        } else if t.spec_is_subtype(StaticType { mask: TY_SYMBOL }) {
            AliasClass::SymbolIvar
        } else if t.spec_is_subtype(StaticType { mask: TY_RANGE }) {
            AliasClass::RangeIvar
        } else if t.spec_is_subtype(StaticType { mask: TY_REGEXP }) {
            AliasClass::RegexpIvar
        } else if t.spec_is_subtype(StaticType { mask: TY_HEAP_OBJECT }) {
            AliasClass::OtherIvar
        } else {
            AliasClass::Unknown
        }
    }

    /// The alias class for a field access based on the object's static type.
    /// Types that narrow to no recognized family fall to `Unknown`.
    pub fn from_ivar_type(obj_type: &StaticType) -> (r: AliasClass)
        ensures
            r == AliasClass::spec_from_ivar_type(*obj_type),
    {
        if obj_type.is_subtype(&StaticType { mask: TY_ARRAY }) {
            AliasClass::ArrayIvar
        } else if obj_type.is_subtype(&StaticType { mask: TY_HASH }) {
            AliasClass::HashIvar
        } else if obj_type.is_subtype(&StaticType { mask: TY_STRING }) {
            AliasClass::StringIvar
        } else if obj_type.is_subtype(&StaticType { mask: TY_INTEGER }) {
            AliasClass::IntegerIvar
        } else if obj_type.is_subtype(&StaticType { mask: TY_FLOAT }) {
            AliasClass::FloatIvar
        } else if obj_type.is_subtype(&StaticType { mask: TY_SYMBOL }) {
            AliasClass::SymbolIvar
        } else if obj_type.is_subtype(&StaticType { mask: TY_RANGE }) {
            AliasClass::RangeIvar
        } else if obj_type.is_subtype(&StaticType { mask: TY_REGEXP }) {
            AliasClass::RegexpIvar
        } else if obj_type.is_subtype(&StaticType { mask: TY_HEAP_OBJECT }) {
            AliasClass::OtherIvar
        } else {
            AliasClass::Unknown
        }
    }
}

/// Alias-class reasoning is reflexive and symmetric, `Unknown` may alias
/// everything, and distinct concrete classes never alias.
pub proof fn lemma_alias_class_laws(a: AliasClass, b: AliasClass)
    ensures
        AliasClass::spec_may_alias(a, a),
        AliasClass::spec_may_alias(a, b) == AliasClass::spec_may_alias(b, a),
        AliasClass::spec_may_alias(AliasClass::Unknown, a),
        AliasClass::spec_may_alias(a, AliasClass::Unknown),
        a != b && !(a is Unknown) && !(b is Unknown) ==> !AliasClass::spec_may_alias(a, b),
{
}

/// Canonical identity of a load/store target.
#[derive(Clone, Debug, PartialEq, Eq, Hash, Structural)]
pub enum MemoryLocation {
    /// Field access: receiver value, field identifier, alias class.
    InstanceVariable(InsnId, u64, AliasClass),
    /// Global variable access, by global identifier.
    GlobalVariable(u64),
    /// Local slot access: lexical depth and slot offset.
    LocalVariable(u32, u32),
}

impl MemoryLocation {
    /// Conservative may-alias between two locations. Field accesses on
    /// syntactically different receivers fall back to class-level reasoning,
    /// since different receivers may still be the same runtime object;
    /// identical receivers are provably the same object, so only the field
    /// identifiers (or an `Unknown` class) matter. Mismatched kinds never
    /// alias.
    pub open spec fn spec_may_alias(a: MemoryLocation, b: MemoryLocation) -> bool {
        match (a, b) {
            (
                MemoryLocation::InstanceVariable(o1, f1, c1),
                MemoryLocation::InstanceVariable(o2, f2, c2),
            ) => {
                if o1 == o2 {
                    f1 == f2 || c1 is Unknown || c2 is Unknown
                } else {
                    AliasClass::spec_may_alias(c1, c2)
                }
            },
            (MemoryLocation::GlobalVariable(g1), MemoryLocation::GlobalVariable(g2)) => g1 == g2,
            (MemoryLocation::LocalVariable(l1, o1), MemoryLocation::LocalVariable(l2, o2)) => l1
                == l2 && o1 == o2,
            _ => false,
        }
    }

    /// Whether this location may alias with `other`.
    pub fn may_alias(&self, other: &MemoryLocation) -> (r: bool)
        ensures
            r == MemoryLocation::spec_may_alias(*self, *other),
    {
        match (self, other) {
            (
                MemoryLocation::InstanceVariable(o1, f1, c1),
                MemoryLocation::InstanceVariable(o2, f2, c2),
            ) => {
                if o1.0 == o2.0 {
                    *f1 == *f2 || matches!(c1, AliasClass::Unknown) || matches!(
                        c2,
                        AliasClass::Unknown,
                    )
                } else {
                    c1.may_alias(c2)
                }
            },
            (MemoryLocation::GlobalVariable(g1), MemoryLocation::GlobalVariable(g2)) => *g1 == *g2,
            (MemoryLocation::LocalVariable(l1, o1), MemoryLocation::LocalVariable(l2, o2)) => *l1
                == *l2 && *o1 == *o2,
            _ => false,
        }
    }
}

/// Whether two locations are of the same kind of target.
pub open spec fn spec_same_kind(a: MemoryLocation, b: MemoryLocation) -> bool {
    match (a, b) {
        (MemoryLocation::InstanceVariable(..), MemoryLocation::InstanceVariable(..)) => true,
        (MemoryLocation::GlobalVariable(..), MemoryLocation::GlobalVariable(..)) => true,
        (MemoryLocation::LocalVariable(..), MemoryLocation::LocalVariable(..)) => true,
        _ => false,
    }
}

/// Location reasoning is reflexive and symmetric, and mismatched location
/// kinds never alias.
pub proof fn lemma_memory_location_laws(a: MemoryLocation, b: MemoryLocation)
    ensures
        MemoryLocation::spec_may_alias(a, a),
        MemoryLocation::spec_may_alias(a, b) == MemoryLocation::spec_may_alias(b, a),
        (a matches MemoryLocation::InstanceVariable(o1, f1, c1) && b
            matches MemoryLocation::InstanceVariable(o2, f2, c2) && o1 == o2 && f1 != f2 && !(c1
            is Unknown) && !(c2 is Unknown)) ==> !MemoryLocation::spec_may_alias(a, b),
        !spec_same_kind(a, b) ==> !MemoryLocation::spec_may_alias(a, b),
{
}

/// Two field accesses on the identical receiver alias exactly when the field
/// identifiers are equal or either class is `Unknown`.
pub proof fn lemma_same_receiver_alias(o: InsnId, f1: u64, c1: AliasClass, f2: u64, c2: AliasClass)
    ensures
        MemoryLocation::spec_may_alias(
            MemoryLocation::InstanceVariable(o, f1, c1),
            MemoryLocation::InstanceVariable(o, f2, c2),
        ) <==> (f1 == f2 || c1 is Unknown || c2 is Unknown),
{
}

/// Two globals alias exactly when their identifiers are equal.
pub proof fn lemma_global_alias(g1: u64, g2: u64)
    ensures
        MemoryLocation::spec_may_alias(
            MemoryLocation::GlobalVariable(g1),
            MemoryLocation::GlobalVariable(g2),
        ) <==> g1 == g2,
{
}

/// Two locals alias exactly when depth and offset are both equal.
pub proof fn lemma_local_alias(l1: u32, o1: u32, l2: u32, o2: u32)
    ensures
        MemoryLocation::spec_may_alias(
            MemoryLocation::LocalVariable(l1, o1),
            MemoryLocation::LocalVariable(l2, o2),
        ) <==> (l1 == l2 && o1 == o2),
{
}

/// The location a memory-operation instruction accesses, or none for
/// instructions that are not memory operations. Field accesses take their
/// alias class from the oracle's type for the receiver.
pub open spec fn spec_insn_location(f: Function, insn: Insn) -> Option<MemoryLocation> {
    match insn {
        Insn::GetIvar { self_val, id } => Some(
            MemoryLocation::InstanceVariable(
                self_val,
                id,
                AliasClass::spec_from_ivar_type(f.spec_type_of(self_val)),
            ),
        ),
        Insn::SetIvar { self_val, id, .. } => Some(
            MemoryLocation::InstanceVariable(
                self_val,
                id,
                AliasClass::spec_from_ivar_type(f.spec_type_of(self_val)),
            ),
        ),
        Insn::GetGlobal { id } => Some(MemoryLocation::GlobalVariable(id)),
        Insn::SetGlobal { id, .. } => Some(MemoryLocation::GlobalVariable(id)),
        Insn::GetLocal { level, ep_offset } => Some(
            MemoryLocation::LocalVariable(level, ep_offset),
        ),
        Insn::SetLocal { level, ep_offset, .. } => Some(
            MemoryLocation::LocalVariable(level, ep_offset),
        ),
        _ => None,
    }
}

/// The table after recording the instruction `id` of `f`.
pub open spec fn spec_record_one(
    t: Map<usize, MemoryLocation>,
    f: Function,
    id: InsnId,
) -> Map<usize, MemoryLocation> {
    match spec_insn_location(f, f.spec_insns()[id.0 as int]) {
        Some(loc) => t.insert(id.0, loc),
        None => t,
    }
}

/// The table after recording the instructions `ids` of `f`, in order.
pub open spec fn spec_analyze_ids(
    t: Map<usize, MemoryLocation>,
    f: Function,
    ids: Seq<InsnId>,
) -> Map<usize, MemoryLocation>
    decreases ids.len(),
{
    if ids.len() == 0 {
        t
    } else {
        spec_analyze_ids(spec_record_one(t, f, ids.first()), f, ids.drop_first())
    }
}

/// The table after walking the given blocks of `f`, in order.
pub open spec fn spec_analyze_blocks(
    t: Map<usize, MemoryLocation>,
    f: Function,
    blocks: Seq<Seq<InsnId>>,
) -> Map<usize, MemoryLocation>
    decreases blocks.len(),
{
    if blocks.len() == 0 {
        t
    } else {
        spec_analyze_blocks(spec_analyze_ids(t, f, blocks.first()), f, blocks.drop_first())
    }
}

proof fn lemma_analyze_ids_snoc(
    t: Map<usize, MemoryLocation>,
    f: Function,
    ids: Seq<InsnId>,
    x: InsnId,
)
    ensures
        spec_analyze_ids(t, f, ids.push(x)) == spec_record_one(spec_analyze_ids(t, f, ids), f, x),
    decreases ids.len(),
{
    reveal_with_fuel(spec_analyze_ids, 3);
    if ids.len() == 0 {
        assert(ids.push(x).drop_first() =~= Seq::<InsnId>::empty());
    } else {
        assert(ids.push(x).drop_first() =~= ids.drop_first().push(x));
        lemma_analyze_ids_snoc(spec_record_one(t, f, ids.first()), f, ids.drop_first(), x);
    }
}

proof fn lemma_analyze_blocks_snoc(
    t: Map<usize, MemoryLocation>,
    f: Function,
    blocks: Seq<Seq<InsnId>>,
    x: Seq<InsnId>,
)
    ensures
        spec_analyze_blocks(t, f, blocks.push(x)) == spec_analyze_ids(
            spec_analyze_blocks(t, f, blocks),
            f,
            x,
        ),
    decreases blocks.len(),
{
    reveal_with_fuel(spec_analyze_blocks, 3);
    if blocks.len() == 0 {
        assert(blocks.push(x).drop_first() =~= Seq::<Seq<InsnId>>::empty());
    } else {
        assert(blocks.push(x).drop_first() =~= blocks.drop_first().push(x));
        lemma_analyze_blocks_snoc(
            spec_analyze_ids(t, f, blocks.first()),
            f,
            blocks.drop_first(),
            x,
        );
    }
}

/// Per-function table from instruction identity to memory location, built
/// once per optimization pass. Instructions without an entry are resolved
/// conservatively: they may alias everything.
pub struct MemoryOpTracker {
    locations: HashMap<usize, MemoryLocation>,
}

impl MemoryOpTracker {
    /// The recorded facts: instruction identity to the location it accesses.
    pub closed spec fn table(&self) -> Map<usize, MemoryLocation> {
        self.locations@
    }

    /// What a pairwise query answers: the locations' own reasoning where
    /// both instructions are recorded, and the conservative "may alias"
    /// everywhere else.
    pub open spec fn spec_may_alias(&self, a: InsnId, b: InsnId) -> bool {
        if self.table().contains_key(a.0) && self.table().contains_key(b.0) {
            MemoryLocation::spec_may_alias(self.table()[a.0], self.table()[b.0])
        } else {
            true
        }
    }

    /// An empty tracker.
    pub fn new() -> (r: MemoryOpTracker)
        ensures
            r.table() == Map::<usize, MemoryLocation>::empty(),
    {
        MemoryOpTracker { locations: HashMap::new() }
    }

    /// Records the location of one instruction. The last write for an
    /// identity wins; each identity denotes one instruction, so a second
    /// write never happens in practice.
    pub fn record(&mut self, insn_id: InsnId, loc: MemoryLocation)
        ensures
            final(self).table() == old(self).table().insert(insn_id.0, loc),
    {
        self.locations.insert(insn_id.0, loc);
    }

    /// Extracts the memory location of one instruction, if it is a memory
    /// operation, and records it.
    fn analyze_insn(&mut self, func: &Function, insn_id: InsnId, insn: Insn)
        requires
            func.wf(),
            insn_id.0 < func.spec_insns().len(),
            insn == func.spec_insns()[insn_id.0 as int],
        ensures
            final(self).table() == spec_record_one(old(self).table(), *func, insn_id),
    {
        match insn {
            Insn::GetIvar { self_val, id } => {
                let obj_type = func.type_of(self_val);
                let alias_class = AliasClass::from_ivar_type(&obj_type);
                self.record(insn_id, MemoryLocation::InstanceVariable(self_val, id, alias_class));
            },
            Insn::SetIvar { self_val, id, .. } => {
                let obj_type = func.type_of(self_val);
                let alias_class = AliasClass::from_ivar_type(&obj_type);
                self.record(insn_id, MemoryLocation::InstanceVariable(self_val, id, alias_class));
            },
            Insn::GetGlobal { id } => {
                self.record(insn_id, MemoryLocation::GlobalVariable(id));
            },
            Insn::SetGlobal { id, .. } => {
                self.record(insn_id, MemoryLocation::GlobalVariable(id));
            },
            Insn::GetLocal { level, ep_offset } => {
                self.record(insn_id, MemoryLocation::LocalVariable(level, ep_offset));
            },
            Insn::SetLocal { level, ep_offset, .. } => {
                self.record(insn_id, MemoryLocation::LocalVariable(level, ep_offset));
            },
            _ => {},
        }
    }

    /// Walks a function's blocks in their fixed reverse-postorder and
    /// records the location of every load and store instruction; other
    /// instructions are skipped.
    pub fn analyze(&mut self, func: &Function)
        requires
            func.wf(),
        ensures
            final(self).table() == spec_analyze_blocks(
                old(self).table(),
                *func,
                func.spec_blocks(),
            ),
    {
        let ghost t0 = self.table();
        let num_blocks = func.num_blocks();
        let mut b: usize = 0;
        while b < num_blocks
            invariant
                func.wf(),
                num_blocks == func.spec_blocks().len(),
                b <= num_blocks,
                self.table() == spec_analyze_blocks(t0, *func, func.spec_blocks().take(b as int)),
            decreases num_blocks - b,
        {
            let block_id = crate::hir::BlockId(b);
            let n = func.block_len(block_id);
            let ghost tb = self.table();
            let mut j: usize = 0;
            while j < n
                invariant
                    func.wf(),
                    b < func.spec_blocks().len(),
                    n == func.spec_blocks()[b as int].len(),
                    j <= n,
                    block_id.0 == b,
                    self.table() == spec_analyze_ids(
                        tb,
                        *func,
                        func.spec_blocks()[b as int].take(j as int),
                    ),
                decreases n - j,
            {
                let insn_id = func.block_insn_id(block_id, j);
                let insn = func.find(insn_id);
                self.analyze_insn(func, insn_id, insn);
                proof {
                    let ids = func.spec_blocks()[b as int];
                    assert(ids.take(j + 1) =~= ids.take(j as int).push(insn_id));
                    lemma_analyze_ids_snoc(tb, *func, ids.take(j as int), insn_id);
                }
                j += 1;
            }
            proof {
                let blocks = func.spec_blocks();
                assert(blocks[b as int].take(n as int) =~= blocks[b as int]);
                assert(blocks.take(b + 1) =~= blocks.take(b as int).push(blocks[b as int]));
                lemma_analyze_blocks_snoc(t0, *func, blocks.take(b as int), blocks[b as int]);
            }
            b += 1;
        }
        proof {
            assert(func.spec_blocks().take(num_blocks as int) =~= func.spec_blocks());
        }
    }

    /// The recorded location of an instruction, if it is a known memory
    /// operation.
    pub fn get_location(&self, insn_id: InsnId) -> (r: Option<&MemoryLocation>)
        ensures
            match r {
                Some(loc) => self.table().contains_key(insn_id.0) && *loc == self.table()[insn_id.0],
                None => !self.table().contains_key(insn_id.0),
            },
    {
        self.locations.get(&insn_id.0)
    }

    /// Whether two instructions may access the same storage. Missing
    /// information is never treated as proof of non-aliasing: any
    /// instruction without a recorded location may alias everything.
    pub fn may_alias(&self, insn1: InsnId, insn2: InsnId) -> (r: bool)
        ensures
            r == self.spec_may_alias(insn1, insn2),
    {
        match (self.get_location(insn1), self.get_location(insn2)) {
            (Some(loc1), Some(loc2)) => loc1.may_alias(loc2),
            _ => true,
        }
    }
}

} // verus!
