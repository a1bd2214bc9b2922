use zjit::hir::{Function, Insn, Invariant, BOP_EQ, BOP_NEQ, INTEGER_REDEFINED_OP_FLAG};
use zjit::hir_type::{StaticType, TY_FIXNUM, TY_INTEGER, TY_STRING};
use zjit::annotations::Specializer;

#[test]
fn arith_declines_on_non_numeric_operands() {
    let mut fun = Function::new();
    let block = fun.new_block();
    let left = fun.push_insn(block, Insn::Param { ty: StaticType { mask: TY_STRING } });
    let right = fun.push_insn(block, Insn::Param { ty: StaticType { mask: TY_FIXNUM } });
    let state = fun.push_insn(block, Insn::Param { ty: StaticType { mask: TY_FIXNUM } });
    let before_insns = fun.num_insns();
    let before_block_len = fun.block_len(block);

    let r = Specializer::FixnumAdd.try_specialize(&mut fun, block, state, &vec![left, right]);

    // Declining leaves the instruction sequence byte-for-byte unchanged.
    assert!(r.is_none());
    assert_eq!(fun.num_insns(), before_insns);
    assert_eq!(fun.block_len(block), before_block_len);
    assert_eq!(fun.find(left), Insn::Param { ty: StaticType { mask: TY_STRING } });
}

#[test]
fn arith_declines_on_wrong_arity() {
    let mut fun = Function::new();
    let block = fun.new_block();
    let only = fun.push_insn(block, Insn::Param { ty: StaticType { mask: TY_FIXNUM } });
    let state = fun.push_insn(block, Insn::Param { ty: StaticType { mask: TY_FIXNUM } });
    let before = fun.num_insns();

    let r = Specializer::FixnumDiv.try_specialize(&mut fun, block, state, &vec![only]);

    assert!(r.is_none());
    assert_eq!(fun.num_insns(), before);
}

#[test]
fn arith_emits_one_primitive_for_fixnum_operands() {
    let mut fun = Function::new();
    let block = fun.new_block();
    let left = fun.push_insn(block, Insn::Param { ty: StaticType { mask: TY_FIXNUM } });
    let right = fun.push_insn(block, Insn::Param { ty: StaticType { mask: TY_FIXNUM } });
    let state = fun.push_insn(block, Insn::Param { ty: StaticType { mask: TY_FIXNUM } });
    let before = fun.num_insns();

    let r = Specializer::FixnumAdd.try_specialize(&mut fun, block, state, &vec![left, right]);

    // Operands already known small integers: no guard, exactly one primitive.
    let res = r.unwrap();
    assert_eq!(fun.num_insns(), before + 1);
    assert_eq!(fun.find(res), Insn::FixnumAdd { left, right, state });
}

#[test]
fn arith_guards_integer_operands() {
    let mut fun = Function::new();
    let block = fun.new_block();
    let left = fun.push_insn(block, Insn::Param { ty: StaticType { mask: TY_INTEGER } });
    let right = fun.push_insn(block, Insn::Param { ty: StaticType { mask: TY_FIXNUM } });
    let state = fun.push_insn(block, Insn::Param { ty: StaticType { mask: TY_FIXNUM } });
    let before = fun.num_insns();

    let r = Specializer::FixnumMul.try_specialize(&mut fun, block, state, &vec![left, right]);

    // The left operand might be a big integer: one guard, then the primitive.
    let res = r.unwrap();
    assert_eq!(fun.num_insns(), before + 2);
    let guard = fun.find(zjit::hir::InsnId(before));
    assert_eq!(
        guard,
        Insn::GuardType { val: left, guard_type: StaticType { mask: TY_FIXNUM }, state }
    );
    assert_eq!(
        fun.find(res),
        Insn::FixnumMult { left: zjit::hir::InsnId(before), right, state }
    );
}

#[test]
fn neq_inserts_patch_points_on_both_operators() {
    let mut fun = Function::new();
    let block = fun.new_block();
    let left = fun.push_insn(block, Insn::Param { ty: StaticType { mask: TY_FIXNUM } });
    let right = fun.push_insn(block, Insn::Param { ty: StaticType { mask: TY_FIXNUM } });
    let state = fun.push_insn(block, Insn::Param { ty: StaticType { mask: TY_FIXNUM } });
    let before = fun.num_insns();

    let r = Specializer::BasicObjectNeq.try_specialize(&mut fun, block, state, &vec![left, right]);

    let res = r.unwrap();
    assert_eq!(fun.num_insns(), before + 3);
    assert_eq!(
        fun.find(zjit::hir::InsnId(before)),
        Insn::PatchPoint(Invariant::BOPRedefined { klass: INTEGER_REDEFINED_OP_FLAG, bop: BOP_EQ })
    );
    assert_eq!(
        fun.find(zjit::hir::InsnId(before + 1)),
        Insn::PatchPoint(Invariant::BOPRedefined { klass: INTEGER_REDEFINED_OP_FLAG, bop: BOP_NEQ })
    );
    assert_eq!(fun.find(res), Insn::FixnumNeq { left, right });
}

#[test]
fn neq_declines_without_touching_function() {
    let mut fun = Function::new();
    let block = fun.new_block();
    let left = fun.push_insn(block, Insn::Param { ty: StaticType { mask: TY_STRING } });
    let right = fun.push_insn(block, Insn::Param { ty: StaticType { mask: TY_STRING } });
    let state = fun.push_insn(block, Insn::Param { ty: StaticType { mask: TY_FIXNUM } });
    let before = fun.num_insns();

    let r = Specializer::BasicObjectNeq.try_specialize(&mut fun, block, state, &vec![left, right]);

    // No patch point may be left behind on decline.
    assert!(r.is_none());
    assert_eq!(fun.num_insns(), before);
}

#[test]
fn kernel_itself_returns_receiver() {
    let mut fun = Function::new();
    let block = fun.new_block();
    let recv = fun.push_insn(block, Insn::Param { ty: StaticType { mask: TY_STRING } });
    let state = fun.push_insn(block, Insn::Param { ty: StaticType { mask: TY_FIXNUM } });
    let before = fun.num_insns();

    let r = Specializer::KernelItself.try_specialize(&mut fun, block, state, &vec![recv]);

    assert_eq!(r, Some(recv));
    assert_eq!(fun.num_insns(), before);

    let r2 = Specializer::KernelItself.try_specialize(&mut fun, block, state, &vec![recv, recv]);
    assert!(r2.is_none());
    assert_eq!(fun.num_insns(), before);
}

#[test]
fn comparison_ops_emit_their_own_primitives() {
    let mut fun = Function::new();
    let block = fun.new_block();
    let left = fun.push_insn(block, Insn::Param { ty: StaticType { mask: TY_FIXNUM } });
    let right = fun.push_insn(block, Insn::Param { ty: StaticType { mask: TY_FIXNUM } });
    let state = fun.push_insn(block, Insn::Param { ty: StaticType { mask: TY_FIXNUM } });
    let args = vec![left, right];

    // Each comparison gets its own dedicated primitive; in particular
    // equality and greater-than are not wired to one routine.
    let eq = Specializer::FixnumEq.try_specialize(&mut fun, block, state, &args).unwrap();
    assert_eq!(fun.find(eq), Insn::FixnumEq { left, right });
    let gt = Specializer::FixnumGt.try_specialize(&mut fun, block, state, &args).unwrap();
    assert_eq!(fun.find(gt), Insn::FixnumGt { left, right });
    let lt = Specializer::FixnumLt.try_specialize(&mut fun, block, state, &args).unwrap();
    assert_eq!(fun.find(lt), Insn::FixnumLt { left, right });
    let le = Specializer::FixnumLe.try_specialize(&mut fun, block, state, &args).unwrap();
    assert_eq!(fun.find(le), Insn::FixnumLe { left, right });
    let ge = Specializer::FixnumGe.try_specialize(&mut fun, block, state, &args).unwrap();
    assert_eq!(fun.find(ge), Insn::FixnumGe { left, right });
    let sub = Specializer::FixnumSub.try_specialize(&mut fun, block, state, &args).unwrap();
    assert_eq!(fun.find(sub), Insn::FixnumSub { left, right, state });
    let md = Specializer::FixnumMod.try_specialize(&mut fun, block, state, &args).unwrap();
    assert_eq!(fun.find(md), Insn::FixnumMod { left, right, state });
}
