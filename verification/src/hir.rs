//! Minimal model of the intermediate representation this core works on: the
//! instruction forms the alias pass reads, the forms the specializers emit,
//! and a function under construction that owns an instruction pool, the type
//! oracle's answer for each value, and the blocks in reverse-postorder.

use crate::hir_type::{StaticType, TY_ANY, TY_BOOL, TY_FIXNUM, TY_INTEGER, TY_NIL};
use vstd::prelude::*;

verus! {

/// Identity of an instruction's result value, unique within one function.
#[derive(Clone, Copy, Debug, PartialEq, Eq, Hash, Structural)]
pub struct InsnId(pub usize);

/// Identity of a basic block within one function.
#[derive(Clone, Copy, Debug, PartialEq, Eq, Hash, Structural)]
pub struct BlockId(pub usize);

/// Redefinition status of the integer operators is tracked under this class
/// flag.
pub const INTEGER_REDEFINED_OP_FLAG: u32 = 0x10;
/// Basic-operation tag for the equality operator.
pub const BOP_EQ: u32 = 0x1;
/// Basic-operation tag for the inequality operator.
pub const BOP_NEQ: u32 = 0x2;

/// A global property the compiled code may declare a dependency on.
#[derive(Clone, Copy, Debug, PartialEq, Eq, Structural)]
pub enum Invariant {
    /// The basic operation `bop` of the class under `klass` has not been
    /// redefined since startup.
    BOPRedefined { klass: u32, bop: u32 },
}

/// The instruction forms this core reads or emits. Anything else in the real
/// instruction set is `Other`: the analyses skip it and never inspect it.
#[derive(Clone, Copy, Debug, PartialEq, Eq, Structural)]
pub enum Insn {
    /// An incoming value with the type the oracle reports for it.
    Param { ty: StaticType },
    /// Load of field `id` of the object `self_val`.
    GetIvar { self_val: InsnId, id: u64 },
    /// Store of `val` into field `id` of the object `self_val`.
    SetIvar { self_val: InsnId, id: u64, val: InsnId },
    /// Load of the global variable `id`.
    GetGlobal { id: u64 },
    /// Store of `val` into the global variable `id`.
    SetGlobal { id: u64, val: InsnId },
    /// Load of the local slot `ep_offset` at lexical depth `level`.
    GetLocal { level: u32, ep_offset: u32 },
    /// Store of `val` into the local slot `ep_offset` at depth `level`.
    SetLocal { level: u32, ep_offset: u32, val: InsnId },
    /// Runtime check that `val` has type `guard_type`, deoptimizing through
    /// the anchor `state` on mismatch.
    GuardType { val: InsnId, guard_type: StaticType, state: InsnId },
    /// Declares the compiled code dependent on a global property.
    PatchPoint(Invariant),
    /// Primitive small-integer addition.
    FixnumAdd { left: InsnId, right: InsnId, state: InsnId },
    /// Primitive small-integer subtraction.
    FixnumSub { left: InsnId, right: InsnId, state: InsnId },
    /// Primitive small-integer multiplication.
    FixnumMult { left: InsnId, right: InsnId, state: InsnId },
    /// Primitive small-integer division, with the general semantics for
    /// division by zero (it deoptimizes through `state`, never specialized
    /// away).
    FixnumDiv { left: InsnId, right: InsnId, state: InsnId },
    /// Primitive small-integer remainder; division by zero as for division.
    FixnumMod { left: InsnId, right: InsnId, state: InsnId },
    /// Primitive small-integer equality.
    FixnumEq { left: InsnId, right: InsnId },
    /// Primitive small-integer inequality.
    FixnumNeq { left: InsnId, right: InsnId },
    /// Primitive small-integer less-than.
    FixnumLt { left: InsnId, right: InsnId },
    /// Primitive small-integer less-or-equal.
    FixnumLe { left: InsnId, right: InsnId },
    /// Primitive small-integer greater-than.
    FixnumGt { left: InsnId, right: InsnId },
    /// Primitive small-integer greater-or-equal.
    FixnumGe { left: InsnId, right: InsnId },
    /// Any instruction form this core does not inspect.
    Other,
}

/// Every value an instruction mentions lies below `n`.
pub open spec fn insn_operands_ok(insn: Insn, n: int) -> bool {
    match insn {
        Insn::Param { .. } => true,
        Insn::GetIvar { self_val, .. } => self_val.0 < n,
        Insn::SetIvar { self_val, val, .. } => self_val.0 < n && val.0 < n,
        Insn::GetGlobal { .. } => true,
        Insn::SetGlobal { val, .. } => val.0 < n,
        Insn::GetLocal { .. } => true,
        Insn::SetLocal { val, .. } => val.0 < n,
        Insn::GuardType { val, state, .. } => val.0 < n && state.0 < n,
        Insn::PatchPoint(_) => true,
        Insn::FixnumAdd { left, right, state } => left.0 < n && right.0 < n && state.0 < n,
        Insn::FixnumSub { left, right, state } => left.0 < n && right.0 < n && state.0 < n,
        Insn::FixnumMult { left, right, state } => left.0 < n && right.0 < n && state.0 < n,
        Insn::FixnumDiv { left, right, state } => left.0 < n && right.0 < n && state.0 < n,
        Insn::FixnumMod { left, right, state } => left.0 < n && right.0 < n && state.0 < n,
        Insn::FixnumEq { left, right } => left.0 < n && right.0 < n,
        Insn::FixnumNeq { left, right } => left.0 < n && right.0 < n,
        Insn::FixnumLt { left, right } => left.0 < n && right.0 < n,
        Insn::FixnumLe { left, right } => left.0 < n && right.0 < n,
        Insn::FixnumGt { left, right } => left.0 < n && right.0 < n,
        Insn::FixnumGe { left, right } => left.0 < n && right.0 < n,
        Insn::Other => true,
    }
}

/// The declared type of an instruction's result.
pub open spec fn spec_output_type(insn: Insn) -> StaticType {
    match insn {
        Insn::Param { ty } => ty,
        Insn::GuardType { guard_type, .. } => guard_type,
        Insn::PatchPoint(_) => StaticType { mask: TY_NIL },
        Insn::FixnumAdd { .. } => StaticType { mask: TY_FIXNUM },
        Insn::FixnumSub { .. } => StaticType { mask: TY_FIXNUM },
        Insn::FixnumMult { .. } => StaticType { mask: TY_FIXNUM },
        Insn::FixnumDiv { .. } => StaticType { mask: TY_FIXNUM },
        Insn::FixnumMod { .. } => StaticType { mask: TY_FIXNUM },
        Insn::FixnumEq { .. } => StaticType { mask: TY_BOOL },
        Insn::FixnumNeq { .. } => StaticType { mask: TY_BOOL },
        Insn::FixnumLt { .. } => StaticType { mask: TY_BOOL },
        Insn::FixnumLe { .. } => StaticType { mask: TY_BOOL },
        Insn::FixnumGt { .. } => StaticType { mask: TY_BOOL },
        Insn::FixnumGe { .. } => StaticType { mask: TY_BOOL },
        _ => StaticType { mask: TY_ANY },
    }
}

/// Executable twin of [`spec_output_type`].
pub fn output_type(insn: Insn) -> (r: StaticType)
    ensures
        r == spec_output_type(insn),
{
    match insn {
        Insn::Param { ty } => ty,
        Insn::GuardType { guard_type, .. } => guard_type,
        Insn::PatchPoint(_) => StaticType { mask: TY_NIL },
        Insn::FixnumAdd { .. } => StaticType { mask: TY_FIXNUM },
        Insn::FixnumSub { .. } => StaticType { mask: TY_FIXNUM },
        Insn::FixnumMult { .. } => StaticType { mask: TY_FIXNUM },
        Insn::FixnumDiv { .. } => StaticType { mask: TY_FIXNUM },
        Insn::FixnumMod { .. } => StaticType { mask: TY_FIXNUM },
        Insn::FixnumEq { .. } => StaticType { mask: TY_BOOL },
        Insn::FixnumNeq { .. } => StaticType { mask: TY_BOOL },
        Insn::FixnumLt { .. } => StaticType { mask: TY_BOOL },
        Insn::FixnumLe { .. } => StaticType { mask: TY_BOOL },
        Insn::FixnumGt { .. } => StaticType { mask: TY_BOOL },
        Insn::FixnumGe { .. } => StaticType { mask: TY_BOOL },
        _ => StaticType { mask: TY_ANY },
    }
}

/// The ids `start`, `start + 1`, ... for `n` freshly created values.
pub open spec fn id_range(start: int, n: int) -> Seq<InsnId> {
    Seq::new(n as nat, |i: int| InsnId((start + i) as usize))
}

/// `blocks` with the ids `ids` appended to block `b`.
pub open spec fn blocks_after(blocks: Seq<Seq<InsnId>>, b: int, ids: Seq<InsnId>) -> Seq<
    Seq<InsnId>,
> {
    blocks.update(b, blocks[b] + ids)
}

/// A function under construction. Instruction ids index the pool; the type
/// of each value is the oracle's answer, fixed when the value is created.
pub struct Function {
    insns: Vec<Insn>,
    insn_types: Vec<StaticType>,
    blocks: Vec<Vec<InsnId>>,
}

impl Function {
    /// The instruction pool, in creation order; `InsnId(i)` names entry `i`.
    pub closed spec fn spec_insns(&self) -> Seq<Insn> {
        self.insns@
    }

    /// The declared type of each value, parallel to the pool.
    pub closed spec fn spec_types(&self) -> Seq<StaticType> {
        self.insn_types@
    }

    /// The instruction ids of each block, blocks in reverse-postorder.
    pub closed spec fn spec_blocks(&self) -> Seq<Seq<InsnId>> {
        Seq::new(self.blocks@.len(), |b: int| self.blocks@[b]@)
    }

    /// Types parallel the pool, and every id mentioned anywhere is in range.
    pub open spec fn wf(&self) -> bool {
        &&& self.spec_types().len() == self.spec_insns().len()
        &&& forall|i: int|
            0 <= i < self.spec_insns().len() ==> insn_operands_ok(
                #[trigger] self.spec_insns()[i],
                self.spec_insns().len() as int,
            )
        &&& forall|b: int, j: int|
            0 <= b < self.spec_blocks().len() && 0 <= j < self.spec_blocks()[b].len() ==> (
            #[trigger] self.spec_blocks()[b][j]).0 < self.spec_insns().len()
    }

    /// The oracle's type for the value `v`.
    pub open spec fn spec_type_of(&self, v: InsnId) -> StaticType
        recommends
            v.0 < self.spec_insns().len(),
    {
        self.spec_types()[v.0 as int]
    }

    /// `v` is statically known to be an integer, so speculating that it is a
    /// small integer only risks a guard on the big-integer representation.
    pub open spec fn spec_likely_fixnum(&self, v: InsnId) -> bool {
        self.spec_type_of(v).spec_is_subtype(StaticType { mask: TY_INTEGER })
    }

    /// An empty function: no values, no blocks.
    pub fn new() -> (r: Function)
        ensures
            r.wf(),
            r.spec_insns().len() == 0,
            r.spec_blocks().len() == 0,
    {
        Function { insns: Vec::new(), insn_types: Vec::new(), blocks: Vec::new() }
    }

    /// Appends an empty block and returns its id.
    pub fn new_block(&mut self) -> (b: BlockId)
        requires
            old(self).wf(),
        ensures
            final(self).wf(),
            b.0 == old(self).spec_blocks().len(),
            final(self).spec_insns() == old(self).spec_insns(),
            final(self).spec_types() == old(self).spec_types(),
            final(self).spec_blocks() == old(self).spec_blocks().push(Seq::<InsnId>::empty()),
    {
        let b = BlockId(self.blocks.len());
        self.blocks.push(Vec::new());
        proof {
            assert(final(self).spec_blocks() =~= old(self).spec_blocks().push(
                Seq::<InsnId>::empty(),
            ));
        }
        b
    }

    /// How many values the function holds.
    pub fn num_insns(&self) -> (n: usize)
        ensures
            n == self.spec_insns().len(),
    {
        self.insns.len()
    }

    /// How many blocks the function holds.
    pub fn num_blocks(&self) -> (n: usize)
        ensures
            n == self.spec_blocks().len(),
    {
        self.blocks.len()
    }

    /// How many instructions block `b` holds.
    pub fn block_len(&self, b: BlockId) -> (n: usize)
        requires
            b.0 < self.spec_blocks().len(),
        ensures
            n == self.spec_blocks()[b.0 as int].len(),
    {
        self.blocks[b.0].len()
    }

    /// The `j`th instruction id of block `b`.
    pub fn block_insn_id(&self, b: BlockId, j: usize) -> (r: InsnId)
        requires
            b.0 < self.spec_blocks().len(),
            j < self.spec_blocks()[b.0 as int].len(),
        ensures
            r == self.spec_blocks()[b.0 as int][j as int],
    {
        self.blocks[b.0][j]
    }

    /// The instruction that produced the value `id`.
    pub fn find(&self, id: InsnId) -> (r: Insn)
        requires
            id.0 < self.spec_insns().len(),
        ensures
            r == self.spec_insns()[id.0 as int],
    {
        self.insns[id.0]
    }

    /// The oracle's type for the value `v`.
    pub fn type_of(&self, v: InsnId) -> (r: StaticType)
        requires
            self.wf(),
            v.0 < self.spec_insns().len(),
        ensures
            r == self.spec_type_of(v),
    {
        self.insn_types[v.0]
    }

    /// Whether the value `v` is statically of type `ty`.
    pub fn is_a(&self, v: InsnId, ty: StaticType) -> (r: bool)
        requires
            self.wf(),
            v.0 < self.spec_insns().len(),
        ensures
            r == self.spec_type_of(v).spec_is_subtype(ty),
    {
        let t = self.type_of(v);
        t.is_subtype(&ty)
    }

    /// Whether both operands are plausibly small integers, as the type and
    /// profile information folded into the oracle's answers reports them.
    pub fn arguments_likely_fixnums(&self, left: InsnId, right: InsnId) -> (r: bool)
        requires
            self.wf(),
            left.0 < self.spec_insns().len(),
            right.0 < self.spec_insns().len(),
        ensures
            r == (self.spec_likely_fixnum(left) && self.spec_likely_fixnum(right)),
    {
        let l = self.is_a(left, StaticType { mask: TY_INTEGER });
        let r = self.is_a(right, StaticType { mask: TY_INTEGER });
        l && r
    }

    /// Appends `insn` to the pool and to block `block`, and returns the
    /// fresh value's id.
    pub fn push_insn(&mut self, block: BlockId, insn: Insn) -> (r: InsnId)
        requires
            old(self).wf(),
            block.0 < old(self).spec_blocks().len(),
            insn_operands_ok(insn, old(self).spec_insns().len() as int),
        ensures
            final(self).wf(),
            r.0 == old(self).spec_insns().len(),
            final(self).spec_insns() == old(self).spec_insns().push(insn),
            final(self).spec_types() == old(self).spec_types().push(spec_output_type(insn)),
            final(self).spec_blocks() == blocks_after(
                old(self).spec_blocks(),
                block.0 as int,
                seq![r],
            ),
    {
        let id = InsnId(self.insns.len());
        self.insns.push(insn);
        self.insn_types.push(output_type(insn));
        self.blocks[block.0].push(id);
        proof {
            assert(final(self).spec_blocks() =~~= blocks_after(
                old(self).spec_blocks(),
                block.0 as int,
                seq![id],
            ));
            assert forall|i: int| 0 <= i < self.spec_insns().len() implies insn_operands_ok(
                #[trigger] self.spec_insns()[i],
                self.spec_insns().len() as int,
            ) by {
                if i < old(self).spec_insns().len() {
                    lemma_operands_ok_grow(
                        old(self).spec_insns()[i],
                        old(self).spec_insns().len() as int,
                    );
                } else {
                    lemma_operands_ok_grow(insn, old(self).spec_insns().len() as int);
                }
            }
        }
        id
    }

    /// Ensures `val` may be treated as a small integer: if its static type
    /// already narrows to one, it is returned as is; otherwise a type guard
    /// anchored at `state` is inserted and the guarded value returned.
    pub fn coerce_to_fixnum(&mut self, block: BlockId, val: InsnId, state: InsnId) -> (r: InsnId)
        requires
            old(self).wf(),
            block.0 < old(self).spec_blocks().len(),
            val.0 < old(self).spec_insns().len(),
            state.0 < old(self).spec_insns().len(),
        ensures
            final(self).wf(),
            final(self).spec_insns() == old(self).spec_insns() + coerce_insns(
                *old(self),
                val,
                state,
            ),
            final(self).spec_types() == old(self).spec_types() + coerce_insns(
                *old(self),
                val,
                state,
            ).map_values(|i: Insn| spec_output_type(i)),
            final(self).spec_blocks() == blocks_after(
                old(self).spec_blocks(),
                block.0 as int,
                id_range(
                    old(self).spec_insns().len() as int,
                    coerce_insns(*old(self), val, state).len() as int,
                ),
            ),
            r == coerce_result(*old(self), val),
            r.0 < final(self).spec_insns().len(),
    {
        if self.is_a(val, StaticType { mask: TY_FIXNUM }) {
            proof {
                assert(final(self).spec_insns() =~= old(self).spec_insns() + coerce_insns(
                    *old(self),
                    val,
                    state,
                ));
                assert(final(self).spec_types() =~= old(self).spec_types() + coerce_insns(
                    *old(self),
                    val,
                    state,
                ).map_values(|i: Insn| spec_output_type(i)));
                assert(final(self).spec_blocks() =~~= blocks_after(
                    old(self).spec_blocks(),
                    block.0 as int,
                    id_range(old(self).spec_insns().len() as int, 0),
                ));
            }
            val
        } else {
            let r = self.push_insn(
                block,
                Insn::GuardType { val, guard_type: StaticType { mask: TY_FIXNUM }, state },
            );
            proof {
                assert(final(self).spec_insns() =~= old(self).spec_insns() + coerce_insns(
                    *old(self),
                    val,
                    state,
                ));
                assert(final(self).spec_types() =~= old(self).spec_types() + coerce_insns(
                    *old(self),
                    val,
                    state,
                ).map_values(|i: Insn| spec_output_type(i)));
                assert(id_range(old(self).spec_insns().len() as int, 1) =~= seq![r]);
            }
            r
        }
    }
}

/// Ids in range stay in range when the pool grows.
proof fn lemma_operands_ok_grow(insn: Insn, n: int)
    requires
        insn_operands_ok(insn, n),
    ensures
        insn_operands_ok(insn, n + 1),
{
}

/// The instructions [`Function::coerce_to_fixnum`] emits: nothing when the
/// value is already a small integer, one type guard otherwise.
pub open spec fn coerce_insns(f: Function, val: InsnId, state: InsnId) -> Seq<Insn> {
    if f.spec_type_of(val).spec_is_subtype(StaticType { mask: TY_FIXNUM }) {
        seq![]
    } else {
        seq![Insn::GuardType { val, guard_type: StaticType { mask: TY_FIXNUM }, state }]
    }
}

/// The value [`Function::coerce_to_fixnum`] returns: the operand itself, or
/// the guard's result.
pub open spec fn coerce_result(f: Function, val: InsnId) -> InsnId {
    if f.spec_type_of(val).spec_is_subtype(StaticType { mask: TY_FIXNUM }) {
        val
    } else {
        InsnId(f.spec_insns().len() as usize)
    }
}

} // verus!
