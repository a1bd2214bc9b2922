//! Annotations of native (builtin) standard-library operations, and the
//! speculative specializers that rewrite calls to them into guarded
//! primitive instructions. The registry is built once from a fixed catalog
//! during process initialization and is immutable afterwards.

use crate::hir::{
    blocks_after, coerce_insns, coerce_result, id_range, spec_output_type, BlockId, Function, Insn,
    InsnId, Invariant, BOP_EQ, BOP_NEQ, INTEGER_REDEFINED_OP_FLAG,
};
use crate::hir_type::{StaticType, TY_ANY, TY_BOOL, TY_FIXNUM, TY_INTEGER, TY_NIL, TY_STRING};
use std::collections::HashMap;
use vstd::prelude::*;

verus! {

broadcast use vstd::std_specs::hash::group_hash_axioms;

/// The arithmetic and comparison operations that share the fixnum
/// specialization shape: coerce both operands to small integers under a
/// guard, then emit exactly one primitive instruction.
#[derive(Clone, Copy, Debug, PartialEq, Eq, Structural)]
pub enum FixnumOp {
    Add,
    Sub,
    Mul,
    Div,
    Mod,
    Eq,
    Neq,
    Lt,
    Le,
    Gt,
    Ge,
}

/// The primitive instruction implementing `op` on the coerced operands.
pub open spec fn prim_insn(op: FixnumOp, left: InsnId, right: InsnId, state: InsnId) -> Insn {
    match op {
        FixnumOp::Add => Insn::FixnumAdd { left, right, state },
        FixnumOp::Sub => Insn::FixnumSub { left, right, state },
        FixnumOp::Mul => Insn::FixnumMult { left, right, state },
        FixnumOp::Div => Insn::FixnumDiv { left, right, state },
        FixnumOp::Mod => Insn::FixnumMod { left, right, state },
        FixnumOp::Eq => Insn::FixnumEq { left, right },
        FixnumOp::Neq => Insn::FixnumNeq { left, right },
        FixnumOp::Lt => Insn::FixnumLt { left, right },
        FixnumOp::Le => Insn::FixnumLe { left, right },
        FixnumOp::Gt => Insn::FixnumGt { left, right },
        FixnumOp::Ge => Insn::FixnumGe { left, right },
    }
}

/// Executable twin of [`prim_insn`].
fn make_prim(op: FixnumOp, left: InsnId, right: InsnId, state: InsnId) -> (r: Insn)
    ensures
        r == prim_insn(op, left, right, state),
{
    match op {
        FixnumOp::Add => Insn::FixnumAdd { left, right, state },
        FixnumOp::Sub => Insn::FixnumSub { left, right, state },
        FixnumOp::Mul => Insn::FixnumMult { left, right, state },
        FixnumOp::Div => Insn::FixnumDiv { left, right, state },
        FixnumOp::Mod => Insn::FixnumMod { left, right, state },
        FixnumOp::Eq => Insn::FixnumEq { left, right },
        FixnumOp::Neq => Insn::FixnumNeq { left, right },
        FixnumOp::Lt => Insn::FixnumLt { left, right },
        FixnumOp::Le => Insn::FixnumLe { left, right },
        FixnumOp::Gt => Insn::FixnumGt { left, right },
        FixnumOp::Ge => Insn::FixnumGe { left, right },
    }
}

/// The value naming the coerced right operand: the operand itself when it
/// is already a small integer, else the guard emitted for it, which comes
/// after the left operand's coercion.
pub open spec fn second_coerce_result(f: Function, l: InsnId, r: InsnId, state: InsnId) -> InsnId {
    if f.spec_type_of(r).spec_is_subtype(StaticType { mask: TY_FIXNUM }) {
        r
    } else {
        InsnId((f.spec_insns().len() + coerce_insns(f, l, state).len()) as usize)
    }
}

/// Everything a fixnum specializer emits when it accepts: the operand
/// guards, then the one primitive instruction.
pub open spec fn binop_insns(
    f: Function,
    l: InsnId,
    r: InsnId,
    state: InsnId,
    op: FixnumOp,
) -> Seq<Insn> {
    coerce_insns(f, l, state) + coerce_insns(f, r, state) + seq![
        prim_insn(op, coerce_result(f, l), second_coerce_result(f, l, r, state), state),
    ]
}

/// How `f1` relates to `f0` when a fixnum specializer accepted: exactly the
/// emitted instructions were appended to the pool, their types declared, and
/// their ids appended to `block`; the result is the primitive instruction's
/// value.
pub open spec fn binop_emission(
    f0: Function,
    f1: Function,
    block: BlockId,
    state: InsnId,
    l: InsnId,
    r: InsnId,
    op: FixnumOp,
    res: InsnId,
) -> bool {
    let emitted = binop_insns(f0, l, r, state, op);
    &&& f1.spec_insns() == f0.spec_insns() + emitted
    &&& f1.spec_types() == f0.spec_types() + emitted.map_values(|i: Insn| spec_output_type(i))
    &&& f1.spec_blocks() == blocks_after(
        f0.spec_blocks(),
        block.0 as int,
        id_range(f0.spec_insns().len() as int, emitted.len() as int),
    )
    &&& res.0 == f0.spec_insns().len() + emitted.len() - 1
}

/// The full contract of a fixnum specializer: it declines exactly when the
/// operand list is not a pair of plausibly-integer values, declining leaves
/// the function untouched, and accepting emits the guarded primitive.
pub open spec fn binop_outcome(
    f0: Function,
    f1: Function,
    block: BlockId,
    state: InsnId,
    args: Seq<InsnId>,
    op: FixnumOp,
    r: Option<InsnId>,
) -> bool {
    &&& (r is None ==> f1 == f0)
    &&& (r is None <==> !(args.len() == 2 && f0.spec_likely_fixnum(args[0])
        && f0.spec_likely_fixnum(args[1])))
    &&& (r matches Some(res) ==> binop_emission(f0, f1, block, state, args[0], args[1], op, res))
}

/// Shared shape of the arithmetic and comparison specializers: confirm both
/// operands are plausibly small integers, guard each into the primitive
/// representation, then emit exactly one primitive instruction. Declining
/// leaves the function exactly as it was.
fn specialize_fixnum_binop(
    fun: &mut Function,
    block: BlockId,
    state: InsnId,
    args: &Vec<InsnId>,
    op: FixnumOp,
) -> (r: Option<InsnId>)
    requires
        old(fun).wf(),
        block.0 < old(fun).spec_blocks().len(),
        state.0 < old(fun).spec_insns().len(),
        forall|i: int| 0 <= i < args@.len() ==> (#[trigger] args@[i]).0 < old(
            fun,
        ).spec_insns().len(),
    ensures
        final(fun).wf(),
        binop_outcome(*old(fun), *final(fun), block, state, args@, op, r),
{
    if args.len() != 2 {
        return None;
    }
    let left = args[0];
    let right = args[1];
    if !fun.arguments_likely_fixnums(left, right) {
        return None;
    }
    let ghost f0 = *fun;
    let lc = fun.coerce_to_fixnum(block, left, state);
    let ghost f1 = *fun;
    proof {
        assert(coerce_insns(f1, right, state) =~= coerce_insns(f0, right, state));
        assert(coerce_result(f1, right) == second_coerce_result(f0, left, right, state));
    }
    let rc = fun.coerce_to_fixnum(block, right, state);
    let prim = make_prim(op, lc, rc, state);
    let res = fun.push_insn(block, prim);
    proof {
        let emitted = binop_insns(f0, left, right, state, op);
        assert(final(fun).spec_insns() =~= f0.spec_insns() + emitted);
        assert(final(fun).spec_types() =~= f0.spec_types() + emitted.map_values(
            |i: Insn| spec_output_type(i),
        ));
        assert(final(fun).spec_blocks() =~~= blocks_after(
            f0.spec_blocks(),
            block.0 as int,
            id_range(f0.spec_insns().len() as int, emitted.len() as int),
        ));
    }
    Some(res)
}

/// Returns the receiver unchanged: the identity method needs no code at
/// all. Declines on any unexpected operand count; nothing is ever emitted.
pub fn kernel_itself(
    fun: &mut Function,
    _block: BlockId,
    _state: InsnId,
    args: &Vec<InsnId>,
) -> (r: Option<InsnId>)
    ensures
        *final(fun) == *old(fun),
        r == if args@.len() == 1 {
            Some(args@[0])
        } else {
            None::<InsnId>
        },
{
    if args.len() == 1 {
        Some(args[0])
    } else {
        None
    }
}

/// Specializes integer addition.
pub fn fixnum_add(fun: &mut Function, block: BlockId, state: InsnId, args: &Vec<InsnId>) -> (r:
    Option<InsnId>)
    requires
        old(fun).wf(),
        block.0 < old(fun).spec_blocks().len(),
        state.0 < old(fun).spec_insns().len(),
        forall|i: int| 0 <= i < args@.len() ==> (#[trigger] args@[i]).0 < old(
            fun,
        ).spec_insns().len(),
    ensures
        final(fun).wf(),
        binop_outcome(*old(fun), *final(fun), block, state, args@, FixnumOp::Add, r),
{
    specialize_fixnum_binop(fun, block, state, args, FixnumOp::Add)
}

/// Specializes integer subtraction.
pub fn fixnum_sub(fun: &mut Function, block: BlockId, state: InsnId, args: &Vec<InsnId>) -> (r:
    Option<InsnId>)
    requires
        old(fun).wf(),
        block.0 < old(fun).spec_blocks().len(),
        state.0 < old(fun).spec_insns().len(),
        forall|i: int| 0 <= i < args@.len() ==> (#[trigger] args@[i]).0 < old(
            fun,
        ).spec_insns().len(),
    ensures
        final(fun).wf(),
        binop_outcome(*old(fun), *final(fun), block, state, args@, FixnumOp::Sub, r),
{
    specialize_fixnum_binop(fun, block, state, args, FixnumOp::Sub)
}

/// Specializes integer multiplication.
pub fn fixnum_mul(fun: &mut Function, block: BlockId, state: InsnId, args: &Vec<InsnId>) -> (r:
    Option<InsnId>)
    requires
        old(fun).wf(),
        block.0 < old(fun).spec_blocks().len(),
        state.0 < old(fun).spec_insns().len(),
        forall|i: int| 0 <= i < args@.len() ==> (#[trigger] args@[i]).0 < old(
            fun,
        ).spec_insns().len(),
    ensures
        final(fun).wf(),
        binop_outcome(*old(fun), *final(fun), block, state, args@, FixnumOp::Mul, r),
{
    specialize_fixnum_binop(fun, block, state, args, FixnumOp::Mul)
}

/// Specializes integer division. The emitted primitive keeps the general
/// runtime semantics for division by zero; that is never specialized away.
pub fn fixnum_div(fun: &mut Function, block: BlockId, state: InsnId, args: &Vec<InsnId>) -> (r:
    Option<InsnId>)
    requires
        old(fun).wf(),
        block.0 < old(fun).spec_blocks().len(),
        state.0 < old(fun).spec_insns().len(),
        forall|i: int| 0 <= i < args@.len() ==> (#[trigger] args@[i]).0 < old(
            fun,
        ).spec_insns().len(),
    ensures
        final(fun).wf(),
        binop_outcome(*old(fun), *final(fun), block, state, args@, FixnumOp::Div, r),
{
    specialize_fixnum_binop(fun, block, state, args, FixnumOp::Div)
}

/// Specializes integer remainder; division by zero as for division.
pub fn fixnum_mod(fun: &mut Function, block: BlockId, state: InsnId, args: &Vec<InsnId>) -> (r:
    Option<InsnId>)
    requires
        old(fun).wf(),
        block.0 < old(fun).spec_blocks().len(),
        state.0 < old(fun).spec_insns().len(),
        forall|i: int| 0 <= i < args@.len() ==> (#[trigger] args@[i]).0 < old(
            fun,
        ).spec_insns().len(),
    ensures
        final(fun).wf(),
        binop_outcome(*old(fun), *final(fun), block, state, args@, FixnumOp::Mod, r),
{
    specialize_fixnum_binop(fun, block, state, args, FixnumOp::Mod)
}

/// Specializes integer equality.
pub fn fixnum_eq(fun: &mut Function, block: BlockId, state: InsnId, args: &Vec<InsnId>) -> (r:
    Option<InsnId>)
    requires
        old(fun).wf(),
        block.0 < old(fun).spec_blocks().len(),
        state.0 < old(fun).spec_insns().len(),
        forall|i: int| 0 <= i < args@.len() ==> (#[trigger] args@[i]).0 < old(
            fun,
        ).spec_insns().len(),
    ensures
        final(fun).wf(),
        binop_outcome(*old(fun), *final(fun), block, state, args@, FixnumOp::Eq, r),
{
    specialize_fixnum_binop(fun, block, state, args, FixnumOp::Eq)
}

/// Specializes integer less-than.
pub fn fixnum_lt(fun: &mut Function, block: BlockId, state: InsnId, args: &Vec<InsnId>) -> (r:
    Option<InsnId>)
    requires
        old(fun).wf(),
        block.0 < old(fun).spec_blocks().len(),
        state.0 < old(fun).spec_insns().len(),
        forall|i: int| 0 <= i < args@.len() ==> (#[trigger] args@[i]).0 < old(
            fun,
        ).spec_insns().len(),
    ensures
        final(fun).wf(),
        binop_outcome(*old(fun), *final(fun), block, state, args@, FixnumOp::Lt, r),
{
    specialize_fixnum_binop(fun, block, state, args, FixnumOp::Lt)
}

/// Specializes integer less-or-equal.
pub fn fixnum_le(fun: &mut Function, block: BlockId, state: InsnId, args: &Vec<InsnId>) -> (r:
    Option<InsnId>)
    requires
        old(fun).wf(),
        block.0 < old(fun).spec_blocks().len(),
        state.0 < old(fun).spec_insns().len(),
        forall|i: int| 0 <= i < args@.len() ==> (#[trigger] args@[i]).0 < old(
            fun,
        ).spec_insns().len(),
    ensures
        final(fun).wf(),
        binop_outcome(*old(fun), *final(fun), block, state, args@, FixnumOp::Le, r),
{
    specialize_fixnum_binop(fun, block, state, args, FixnumOp::Le)
}

/// Specializes integer greater-than.
pub fn fixnum_gt(fun: &mut Function, block: BlockId, state: InsnId, args: &Vec<InsnId>) -> (r:
    Option<InsnId>)
    requires
        old(fun).wf(),
        block.0 < old(fun).spec_blocks().len(),
        state.0 < old(fun).spec_insns().len(),
        forall|i: int| 0 <= i < args@.len() ==> (#[trigger] args@[i]).0 < old(
            fun,
        ).spec_insns().len(),
    ensures
        final(fun).wf(),
        binop_outcome(*old(fun), *final(fun), block, state, args@, FixnumOp::Gt, r),
{
    specialize_fixnum_binop(fun, block, state, args, FixnumOp::Gt)
}

/// Specializes integer greater-or-equal.
pub fn fixnum_ge(fun: &mut Function, block: BlockId, state: InsnId, args: &Vec<InsnId>) -> (r:
    Option<InsnId>)
    requires
        old(fun).wf(),
        block.0 < old(fun).spec_blocks().len(),
        state.0 < old(fun).spec_insns().len(),
        forall|i: int| 0 <= i < args@.len() ==> (#[trigger] args@[i]).0 < old(
            fun,
        ).spec_insns().len(),
    ensures
        final(fun).wf(),
        binop_outcome(*old(fun), *final(fun), block, state, args@, FixnumOp::Ge, r),
{
    specialize_fixnum_binop(fun, block, state, args, FixnumOp::Ge)
}

/// The invariant checks the inequality specializer depends on: its
/// correctness derives from the default meaning of equality, so both the
/// equality and the inequality operator must be unredefined.
pub open spec fn neq_patch_points() -> Seq<Insn> {
    seq![
        Insn::PatchPoint(Invariant::BOPRedefined { klass: INTEGER_REDEFINED_OP_FLAG, bop: BOP_EQ }),
        Insn::PatchPoint(
            Invariant::BOPRedefined { klass: INTEGER_REDEFINED_OP_FLAG, bop: BOP_NEQ },
        ),
    ]
}

/// How `f1` relates to `f0` when the inequality specializer accepted: the
/// two patch points, then the operand guards, then the one primitive
/// inequality instruction.
pub open spec fn neq_emission(
    f0: Function,
    f1: Function,
    block: BlockId,
    state: InsnId,
    l: InsnId,
    r: InsnId,
    res: InsnId,
) -> bool {
    let n0 = f0.spec_insns().len() as int;
    let cl = coerce_insns(f0, l, state);
    let cr = coerce_insns(f0, r, state);
    let lc = if f0.spec_type_of(l).spec_is_subtype(StaticType { mask: TY_FIXNUM }) {
        l
    } else {
        InsnId((n0 + 2) as usize)
    };
    let rc = if f0.spec_type_of(r).spec_is_subtype(StaticType { mask: TY_FIXNUM }) {
        r
    } else {
        InsnId((n0 + 2 + cl.len()) as usize)
    };
    let emitted = neq_patch_points() + cl + cr + seq![Insn::FixnumNeq { left: lc, right: rc }];
    &&& f1.spec_insns() == f0.spec_insns() + emitted
    &&& f1.spec_types() == f0.spec_types() + emitted.map_values(|i: Insn| spec_output_type(i))
    &&& f1.spec_blocks() == blocks_after(
        f0.spec_blocks(),
        block.0 as int,
        id_range(n0, emitted.len() as int),
    )
    &&& res.0 == n0 + emitted.len() - 1
}

/// The full contract of the inequality specializer, in the shape of
/// [`binop_outcome`].
pub open spec fn neq_outcome(
    f0: Function,
    f1: Function,
    block: BlockId,
    state: InsnId,
    args: Seq<InsnId>,
    r: Option<InsnId>,
) -> bool {
    &&& (r is None ==> f1 == f0)
    &&& (r is None <==> !(args.len() == 2 && f0.spec_likely_fixnum(args[0])
        && f0.spec_likely_fixnum(args[1])))
    &&& (r matches Some(res) ==> neq_emission(f0, f1, block, state, args[0], args[1], res))
}

/// Specializes object inequality to integer comparison. The general method
/// is only inlined when both operands are plausibly small integers, and the
/// rewrite additionally declares the compiled code dependent on both the
/// equality and inequality operators keeping their default meaning.
pub fn basicobject_neq(fun: &mut Function, block: BlockId, state: InsnId, args: &Vec<InsnId>) -> (r:
    Option<InsnId>)
    requires
        old(fun).wf(),
        block.0 < old(fun).spec_blocks().len(),
        state.0 < old(fun).spec_insns().len(),
        forall|i: int| 0 <= i < args@.len() ==> (#[trigger] args@[i]).0 < old(
            fun,
        ).spec_insns().len(),
    ensures
        final(fun).wf(),
        neq_outcome(*old(fun), *final(fun), block, state, args@, r),
{
    if args.len() != 2 {
        return None;
    }
    let left = args[0];
    let right = args[1];
    if !fun.arguments_likely_fixnums(left, right) {
        return None;
    }
    let ghost f0 = *fun;
    fun.push_insn(
        block,
        Insn::PatchPoint(Invariant::BOPRedefined { klass: INTEGER_REDEFINED_OP_FLAG, bop: BOP_EQ }),
    );
    fun.push_insn(
        block,
        Insn::PatchPoint(
            Invariant::BOPRedefined { klass: INTEGER_REDEFINED_OP_FLAG, bop: BOP_NEQ },
        ),
    );
    let ghost fp = *fun;
    proof {
        assert(coerce_insns(fp, left, state) =~= coerce_insns(f0, left, state));
    }
    let lc = fun.coerce_to_fixnum(block, left, state);
    let ghost f1 = *fun;
    proof {
        assert(coerce_insns(f1, right, state) =~= coerce_insns(fp, right, state));
        assert(coerce_insns(fp, right, state) =~= coerce_insns(f0, right, state));
    }
    let rc = fun.coerce_to_fixnum(block, right, state);
    let res = fun.push_insn(block, Insn::FixnumNeq { left: lc, right: rc });
    proof {
        let n0 = f0.spec_insns().len() as int;
        let cl = coerce_insns(f0, left, state);
        let cr = coerce_insns(f0, right, state);
        let lcs = if f0.spec_type_of(left).spec_is_subtype(StaticType { mask: TY_FIXNUM }) {
            left
        } else {
            InsnId((n0 + 2) as usize)
        };
        let rcs = if f0.spec_type_of(right).spec_is_subtype(StaticType { mask: TY_FIXNUM }) {
            right
        } else {
            InsnId((n0 + 2 + cl.len()) as usize)
        };
        assert(lc == lcs);
        assert(rc == rcs);
        let emitted = neq_patch_points() + cl + cr + seq![Insn::FixnumNeq { left: lc, right: rc }];
        assert(final(fun).spec_insns() =~= f0.spec_insns() + emitted);
        assert(final(fun).spec_types() =~= f0.spec_types() + emitted.map_values(
            |i: Insn| spec_output_type(i),
        ));
        assert(final(fun).spec_blocks() =~~= blocks_after(
            f0.spec_blocks(),
            block.0 as int,
            id_range(n0, emitted.len() as int),
        ));
    }
    Some(res)
}

/// The recognized rewrite rules, one tag per operation, dispatched through
/// a single exhaustive match. Keeps the registry value-typed.
#[derive(Clone, Copy, Debug, PartialEq, Eq, Structural)]
pub enum Specializer {
    KernelItself,
    FixnumAdd,
    FixnumSub,
    FixnumMul,
    FixnumDiv,
    FixnumMod,
    FixnumEq,
    BasicObjectNeq,
    FixnumLt,
    FixnumLe,
    FixnumGt,
    FixnumGe,
}

/// What each rewrite rule promises of the function it was applied to.
pub open spec fn spec_specialize_outcome(
    kind: Specializer,
    f0: Function,
    f1: Function,
    block: BlockId,
    state: InsnId,
    args: Seq<InsnId>,
    r: Option<InsnId>,
) -> bool {
    match kind {
        Specializer::KernelItself => f1 == f0 && r == if args.len() == 1 {
            Some(args[0])
        } else {
            None::<InsnId>
        },
        Specializer::FixnumAdd => binop_outcome(f0, f1, block, state, args, FixnumOp::Add, r),
        Specializer::FixnumSub => binop_outcome(f0, f1, block, state, args, FixnumOp::Sub, r),
        Specializer::FixnumMul => binop_outcome(f0, f1, block, state, args, FixnumOp::Mul, r),
        Specializer::FixnumDiv => binop_outcome(f0, f1, block, state, args, FixnumOp::Div, r),
        Specializer::FixnumMod => binop_outcome(f0, f1, block, state, args, FixnumOp::Mod, r),
        Specializer::FixnumEq => binop_outcome(f0, f1, block, state, args, FixnumOp::Eq, r),
        Specializer::BasicObjectNeq => neq_outcome(f0, f1, block, state, args, r),
        Specializer::FixnumLt => binop_outcome(f0, f1, block, state, args, FixnumOp::Lt, r),
        Specializer::FixnumLe => binop_outcome(f0, f1, block, state, args, FixnumOp::Le, r),
        Specializer::FixnumGt => binop_outcome(f0, f1, block, state, args, FixnumOp::Gt, r),
        Specializer::FixnumGe => binop_outcome(f0, f1, block, state, args, FixnumOp::Ge, r),
    }
}

impl Specializer {
    /// Applies this rewrite rule to a call with operands `args` at the end
    /// of `block`, anchored for deoptimization at `state`. Returning none
    /// means "decline": the function is left exactly as it was, with no
    /// guard and no new instruction.
    pub fn try_specialize(
        &self,
        fun: &mut Function,
        block: BlockId,
        state: InsnId,
        args: &Vec<InsnId>,
    ) -> (r: Option<InsnId>)
        requires
            old(fun).wf(),
            block.0 < old(fun).spec_blocks().len(),
            state.0 < old(fun).spec_insns().len(),
            forall|i: int| 0 <= i < args@.len() ==> (#[trigger] args@[i]).0 < old(
                fun,
            ).spec_insns().len(),
        ensures
            final(fun).wf(),
            r is None ==> *final(fun) == *old(fun),
            spec_specialize_outcome(*self, *old(fun), *final(fun), block, state, args@, r),
    {
        match self {
            Specializer::KernelItself => kernel_itself(fun, block, state, args),
            Specializer::FixnumAdd => fixnum_add(fun, block, state, args),
            Specializer::FixnumSub => fixnum_sub(fun, block, state, args),
            Specializer::FixnumMul => fixnum_mul(fun, block, state, args),
            Specializer::FixnumDiv => fixnum_div(fun, block, state, args),
            Specializer::FixnumMod => fixnum_mod(fun, block, state, args),
            Specializer::FixnumEq => fixnum_eq(fun, block, state, args),
            Specializer::BasicObjectNeq => basicobject_neq(fun, block, state, args),
            Specializer::FixnumLt => fixnum_lt(fun, block, state, args),
            Specializer::FixnumLe => fixnum_le(fun, block, state, args),
            Specializer::FixnumGt => fixnum_gt(fun, block, state, args),
            Specializer::FixnumGe => fixnum_ge(fun, block, state, args),
        }
    }
}

/// Runtime behaviors of a native function implementing a builtin method.
#[derive(Clone, Copy, Debug, PartialEq, Eq, Structural)]
pub struct FnProperties {
    /// The function cannot yield to the garbage collector.
    pub no_gc: bool,
    /// The function cannot call back into interpreted code.
    pub leaf: bool,
    /// The type the function returns.
    pub return_type: StaticType,
    /// Removing the call is legal if its result is unused (and the call is
    /// otherwise observably pure; see [`FnProperties::can_eliminate_unused`]).
    pub elidable: bool,
    /// The rewrite rule that may replace a call, if any.
    pub inline: Option<Specializer>,
}

impl FnProperties {
    /// The fully conservative assumptions callers must fall back to when an
    /// operation has no known properties: it may trigger collection, may
    /// reenter interpreted code, is not eliminable, and has no specializer.
    pub fn conservative() -> (r: FnProperties)
        ensures
            r == (FnProperties {
                no_gc: false,
                leaf: false,
                return_type: StaticType { mask: TY_ANY },
                elidable: false,
                inline: None::<Specializer>,
            }),
    {
        FnProperties {
            no_gc: false,
            leaf: false,
            return_type: StaticType { mask: TY_ANY },
            elidable: false,
            inline: None,
        }
    }

    /// Whether a call may be deleted outright when its value is provably
    /// unused: only when it is also observably pure, that is, it cannot
    /// trigger collection and cannot reenter interpreted code.
    pub fn can_eliminate_unused(&self) -> (r: bool)
        ensures
            r == (self.elidable && self.no_gc && self.leaf),
    {
        self.elidable && self.no_gc && self.leaf
    }
}

/// The classes whose methods the catalog annotates.
#[derive(Clone, Copy, Debug, PartialEq, Eq, Structural)]
pub enum RubyClass {
    MKernel,
    CString,
    CModule,
    CArray,
    CBasicObject,
    CInteger,
}

/// The method selectors the catalog annotates. The external resolver turns
/// a (class, selector) pair into a stable native-function identity.
#[derive(Clone, Copy, Debug, PartialEq, Eq, Structural)]
pub enum MethodName {
    Itself,
    Bytesize,
    Name,
    CaseEq,
    Length,
    Size,
    OpNeq,
    OpAdd,
    OpSub,
    OpMul,
    OpDiv,
    OpMod,
    OpEq,
    OpLt,
    OpLe,
    OpGt,
    OpGe,
}

/// One cataloged builtin: the method it names and the properties to install
/// for it.
#[derive(Clone, Copy, Debug, PartialEq, Eq, Structural)]
pub struct CatalogEntry {
    pub class: RubyClass,
    pub method: MethodName,
    pub props: FnProperties,
}

/// The fixed catalog of annotated standard-library operations, generated
/// against a known baseline of the runtime.
pub open spec fn spec_catalog() -> Seq<CatalogEntry> {
    seq![
        CatalogEntry {
            class: RubyClass::MKernel,
            method: MethodName::Itself,
            props: FnProperties {
                no_gc: true,
                leaf: true,
                return_type: StaticType { mask: TY_ANY },
                elidable: false,
                inline: Some(Specializer::KernelItself),
            },
        },
        CatalogEntry {
            class: RubyClass::CString,
            method: MethodName::Bytesize,
            props: FnProperties {
                no_gc: true,
                leaf: true,
                return_type: StaticType { mask: TY_FIXNUM },
                elidable: false,
                inline: None,
            },
        },
        CatalogEntry {
            class: RubyClass::CModule,
            method: MethodName::Name,
            props: FnProperties {
                no_gc: true,
                leaf: true,
                return_type: StaticType { mask: TY_STRING | TY_NIL },
                elidable: false,
                inline: None,
            },
        },
        CatalogEntry {
            class: RubyClass::CModule,
            method: MethodName::CaseEq,
            props: FnProperties {
                no_gc: true,
                leaf: true,
                return_type: StaticType { mask: TY_BOOL },
                elidable: false,
                inline: None,
            },
        },
        CatalogEntry {
            class: RubyClass::CArray,
            method: MethodName::Length,
            props: FnProperties {
                no_gc: true,
                leaf: true,
                return_type: StaticType { mask: TY_FIXNUM },
                elidable: true,
                inline: None,
            },
        },
        CatalogEntry {
            class: RubyClass::CArray,
            method: MethodName::Size,
            props: FnProperties {
                no_gc: true,
                leaf: true,
                return_type: StaticType { mask: TY_FIXNUM },
                elidable: true,
                inline: None,
            },
        },
        CatalogEntry {
            class: RubyClass::CBasicObject,
            method: MethodName::OpNeq,
            props: FnProperties {
                no_gc: false,
                leaf: false,
                return_type: StaticType { mask: TY_BOOL },
                elidable: false,
                inline: Some(Specializer::BasicObjectNeq),
            },
        },
        CatalogEntry {
            class: RubyClass::CInteger,
            method: MethodName::OpAdd,
            props: FnProperties {
                no_gc: false,
                leaf: false,
                return_type: StaticType { mask: TY_INTEGER },
                elidable: false,
                inline: Some(Specializer::FixnumAdd),
            },
        },
        CatalogEntry {
            class: RubyClass::CInteger,
            method: MethodName::OpSub,
            props: FnProperties {
                no_gc: false,
                leaf: false,
                return_type: StaticType { mask: TY_INTEGER },
                elidable: false,
                inline: Some(Specializer::FixnumSub),
            },
        },
        CatalogEntry {
            class: RubyClass::CInteger,
            method: MethodName::OpMul,
            props: FnProperties {
                no_gc: false,
                leaf: false,
                return_type: StaticType { mask: TY_INTEGER },
                elidable: false,
                inline: Some(Specializer::FixnumMul),
            },
        },
        CatalogEntry {
            class: RubyClass::CInteger,
            method: MethodName::OpDiv,
            props: FnProperties {
                no_gc: false,
                leaf: false,
                return_type: StaticType { mask: TY_INTEGER },
                elidable: false,
                inline: Some(Specializer::FixnumDiv),
            },
        },
        CatalogEntry {
            class: RubyClass::CInteger,
            method: MethodName::OpMod,
            props: FnProperties {
                no_gc: false,
                leaf: false,
                return_type: StaticType { mask: TY_INTEGER },
                elidable: false,
                inline: Some(Specializer::FixnumMod),
            },
        },
        CatalogEntry {
            class: RubyClass::CInteger,
            method: MethodName::OpEq,
            props: FnProperties {
                no_gc: false,
                leaf: false,
                return_type: StaticType { mask: TY_BOOL },
                elidable: false,
                inline: Some(Specializer::FixnumEq),
            },
        },
        CatalogEntry {
            class: RubyClass::CInteger,
            method: MethodName::OpLt,
            props: FnProperties {
                no_gc: false,
                leaf: false,
                return_type: StaticType { mask: TY_BOOL },
                elidable: false,
                inline: Some(Specializer::FixnumLt),
            },
        },
        CatalogEntry {
            class: RubyClass::CInteger,
            method: MethodName::OpLe,
            props: FnProperties {
                no_gc: false,
                leaf: false,
                return_type: StaticType { mask: TY_BOOL },
                elidable: false,
                inline: Some(Specializer::FixnumLe),
            },
        },
        CatalogEntry {
            class: RubyClass::CInteger,
            method: MethodName::OpGt,
            props: FnProperties {
                no_gc: false,
                leaf: false,
                return_type: StaticType { mask: TY_BOOL },
                elidable: false,
                inline: Some(Specializer::FixnumGt),
            },
        },
        CatalogEntry {
            class: RubyClass::CInteger,
            method: MethodName::OpGe,
            props: FnProperties {
                no_gc: false,
                leaf: false,
                return_type: StaticType { mask: TY_BOOL },
                elidable: false,
                inline: Some(Specializer::FixnumGe),
            },
        },
    ]
}

/// The catalog as a value, for the initialization step and for the external
/// resolver that turns each entry into a native-function identity.
pub fn catalog() -> (r: Vec<CatalogEntry>)
    ensures
        r@ == spec_catalog(),
{
    let mut v: Vec<CatalogEntry> = Vec::new();
    v.push(
        CatalogEntry {
            class: RubyClass::MKernel,
            method: MethodName::Itself,
            props: FnProperties {
                no_gc: true,
                leaf: true,
                return_type: StaticType { mask: TY_ANY },
                elidable: false,
                inline: Some(Specializer::KernelItself),
            },
        },
    );
    v.push(
        CatalogEntry {
            class: RubyClass::CString,
            method: MethodName::Bytesize,
            props: FnProperties {
                no_gc: true,
                leaf: true,
                return_type: StaticType { mask: TY_FIXNUM },
                elidable: false,
                inline: None,
            },
        },
    );
    v.push(
        CatalogEntry {
            class: RubyClass::CModule,
            method: MethodName::Name,
            props: FnProperties {
                no_gc: true,
                leaf: true,
                return_type: StaticType { mask: TY_STRING | TY_NIL },
                elidable: false,
                inline: None,
            },
        },
    );
    v.push(
        CatalogEntry {
            class: RubyClass::CModule,
            method: MethodName::CaseEq,
            props: FnProperties {
                no_gc: true,
                leaf: true,
                return_type: StaticType { mask: TY_BOOL },
                elidable: false,
                inline: None,
            },
        },
    );
    v.push(
        CatalogEntry {
            class: RubyClass::CArray,
            method: MethodName::Length,
            props: FnProperties {
                no_gc: true,
                leaf: true,
                return_type: StaticType { mask: TY_FIXNUM },
                elidable: true,
                inline: None,
            },
        },
    );
    v.push(
        CatalogEntry {
            class: RubyClass::CArray,
            method: MethodName::Size,
            props: FnProperties {
                no_gc: true,
                leaf: true,
                return_type: StaticType { mask: TY_FIXNUM },
                elidable: true,
                inline: None,
            },
        },
    );
    v.push(
        CatalogEntry {
            class: RubyClass::CBasicObject,
            method: MethodName::OpNeq,
            props: FnProperties {
                no_gc: false,
                leaf: false,
                return_type: StaticType { mask: TY_BOOL },
                elidable: false,
                inline: Some(Specializer::BasicObjectNeq),
            },
        },
    );
    v.push(
        CatalogEntry {
            class: RubyClass::CInteger,
            method: MethodName::OpAdd,
            props: FnProperties {
                no_gc: false,
                leaf: false,
                return_type: StaticType { mask: TY_INTEGER },
                elidable: false,
                inline: Some(Specializer::FixnumAdd),
            },
        },
    );
    v.push(
        CatalogEntry {
            class: RubyClass::CInteger,
            method: MethodName::OpSub,
            props: FnProperties {
                no_gc: false,
                leaf: false,
                return_type: StaticType { mask: TY_INTEGER },
                elidable: false,
                inline: Some(Specializer::FixnumSub),
            },
        },
    );
    v.push(
        CatalogEntry {
            class: RubyClass::CInteger,
            method: MethodName::OpMul,
            props: FnProperties {
                no_gc: false,
                leaf: false,
                return_type: StaticType { mask: TY_INTEGER },
                elidable: false,
                inline: Some(Specializer::FixnumMul),
            },
        },
    );
    v.push(
        CatalogEntry {
            class: RubyClass::CInteger,
            method: MethodName::OpDiv,
            props: FnProperties {
                no_gc: false,
                leaf: false,
                return_type: StaticType { mask: TY_INTEGER },
                elidable: false,
                inline: Some(Specializer::FixnumDiv),
            },
        },
    );
    v.push(
        CatalogEntry {
            class: RubyClass::CInteger,
            method: MethodName::OpMod,
            props: FnProperties {
                no_gc: false,
                leaf: false,
                return_type: StaticType { mask: TY_INTEGER },
                elidable: false,
                inline: Some(Specializer::FixnumMod),
            },
        },
    );
    v.push(
        CatalogEntry {
            class: RubyClass::CInteger,
            method: MethodName::OpEq,
            props: FnProperties {
                no_gc: false,
                leaf: false,
                return_type: StaticType { mask: TY_BOOL },
                elidable: false,
                inline: Some(Specializer::FixnumEq),
            },
        },
    );
    v.push(
        CatalogEntry {
            class: RubyClass::CInteger,
            method: MethodName::OpLt,
            props: FnProperties {
                no_gc: false,
                leaf: false,
                return_type: StaticType { mask: TY_BOOL },
                elidable: false,
                inline: Some(Specializer::FixnumLt),
            },
        },
    );
    v.push(
        CatalogEntry {
            class: RubyClass::CInteger,
            method: MethodName::OpLe,
            props: FnProperties {
                no_gc: false,
                leaf: false,
                return_type: StaticType { mask: TY_BOOL },
                elidable: false,
                inline: Some(Specializer::FixnumLe),
            },
        },
    );
    v.push(
        CatalogEntry {
            class: RubyClass::CInteger,
            method: MethodName::OpGt,
            props: FnProperties {
                no_gc: false,
                leaf: false,
                return_type: StaticType { mask: TY_BOOL },
                elidable: false,
                inline: Some(Specializer::FixnumGt),
            },
        },
    );
    v.push(
        CatalogEntry {
            class: RubyClass::CInteger,
            method: MethodName::OpGe,
            props: FnProperties {
                no_gc: false,
                leaf: false,
                return_type: StaticType { mask: TY_BOOL },
                elidable: false,
                inline: Some(Specializer::FixnumGe),
            },
        },
    );
    proof {
        assert(v@ =~= spec_catalog());
    }
    v
}

/// The registry contents after installing each catalog entry under its
/// resolved identity, in order: the last write for an identity wins, which
/// matters only where two selectors resolve to one native function.
pub open spec fn spec_registry(fn_ptrs: Seq<u64>, entries: Seq<CatalogEntry>) -> Map<
    u64,
    FnProperties,
>
    recommends
        fn_ptrs.len() == entries.len(),
    decreases entries.len(),
{
    if entries.len() == 0 {
        Map::empty()
    } else {
        spec_registry(fn_ptrs.drop_last(), entries.drop_last()).insert(
            fn_ptrs.last(),
            entries.last().props,
        )
    }
}

/// Process-wide table of native-function properties. Built exactly once
/// during initialization, from the catalog; no mutation is exposed
/// afterwards, so it is shared read-only by all compilations.
pub struct Annotations {
    cfuncs: HashMap<u64, FnProperties>,
}

impl Annotations {
    /// The installed table: native-function identity to properties.
    pub closed spec fn table(&self) -> Map<u64, FnProperties> {
        self.cfuncs@
    }

    /// The properties installed for the identity `fn_ptr`, or none if it
    /// was never registered. Absence means "no properties known": callers
    /// must fall back to [`FnProperties::conservative`].
    pub fn lookup(&self, fn_ptr: u64) -> (r: Option<FnProperties>)
        ensures
            match r {
                Some(p) => self.table().contains_key(fn_ptr) && p == self.table()[fn_ptr],
                None => !self.table().contains_key(fn_ptr),
            },
    {
        match self.cfuncs.get(&fn_ptr) {
            Some(p) => Some(*p),
            None => None,
        }
    }

    /// Query about the properties of a resolved method. The external
    /// resolver hands over the native-function identity, or none for a
    /// method that is not a recognized native function; the query then
    /// fails open with "no properties known", never aborting compilation.
    pub fn get_cfunc_properties(&self, resolved: Option<u64>) -> (r: Option<FnProperties>)
        ensures
            r == match resolved {
                Some(fn_ptr) => if self.table().contains_key(fn_ptr) {
                    Some(self.table()[fn_ptr])
                } else {
                    None::<FnProperties>
                },
                None => None::<FnProperties>,
            },
    {
        match resolved {
            Some(fn_ptr) => self.lookup(fn_ptr),
            None => None,
        }
    }
}

/// Builds the registry, pairing catalog entry `i` with the resolved
/// identity `fn_ptrs[i]`. Resolving the identities is the external
/// resolver's work; it fails fatally, before this point, when a cataloged
/// method is missing from the runtime.
pub fn init(fn_ptrs: &Vec<u64>) -> (r: Annotations)
    requires
        fn_ptrs@.len() == spec_catalog().len(),
    ensures
        r.table() == spec_registry(fn_ptrs@, spec_catalog()),
{
    let entries = catalog();
    let mut cfuncs: HashMap<u64, FnProperties> = HashMap::new();
    let mut i: usize = 0;
    while i < entries.len()
        invariant
            entries@ == spec_catalog(),
            fn_ptrs@.len() == entries@.len(),
            i <= entries@.len(),
            cfuncs@ == spec_registry(fn_ptrs@.take(i as int), entries@.take(i as int)),
        decreases entries@.len() - i,
    {
        cfuncs.insert(fn_ptrs[i], entries[i].props);
        proof {
            assert(fn_ptrs@.take(i + 1).drop_last() =~= fn_ptrs@.take(i as int));
            assert(entries@.take(i + 1).drop_last() =~= entries@.take(i as int));
            assert(fn_ptrs@.take(i + 1).last() == fn_ptrs@[i as int]);
            assert(entries@.take(i + 1).last() == entries@[i as int]);
        }
        i += 1;
    }
    proof {
        assert(fn_ptrs@.take(fn_ptrs@.len() as int) =~= fn_ptrs@);
        assert(entries@.take(entries@.len() as int) =~= entries@);
    }
    Annotations { cfuncs }
}

/// Lookup of an identity returns exactly the properties supplied at its
/// (last) registration.
pub proof fn lemma_registry_lookup(fn_ptrs: Seq<u64>, entries: Seq<CatalogEntry>, i: int)
    requires
        fn_ptrs.len() == entries.len(),
        0 <= i < fn_ptrs.len(),
        forall|j: int| i < j < fn_ptrs.len() ==> fn_ptrs[j] != fn_ptrs[i],
    ensures
        spec_registry(fn_ptrs, entries).contains_key(fn_ptrs[i]),
        spec_registry(fn_ptrs, entries)[fn_ptrs[i]] == entries[i].props,
    decreases fn_ptrs.len(),
{
    if i < fn_ptrs.len() - 1 {
        lemma_registry_lookup(fn_ptrs.drop_last(), entries.drop_last(), i);
    }
}

/// Lookup of an identity never registered returns none.
pub proof fn lemma_registry_unregistered(fn_ptrs: Seq<u64>, entries: Seq<CatalogEntry>, k: u64)
    requires
        fn_ptrs.len() == entries.len(),
        forall|j: int| 0 <= j < fn_ptrs.len() ==> fn_ptrs[j] != k,
    ensures
        !spec_registry(fn_ptrs, entries).contains_key(k),
    decreases fn_ptrs.len(),
{
    if fn_ptrs.len() > 0 {
        lemma_registry_unregistered(fn_ptrs.drop_last(), entries.drop_last(), k);
    }
}

} // verus!



