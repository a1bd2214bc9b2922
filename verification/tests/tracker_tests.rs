use zjit::hir::{Function, Insn, InsnId};
use zjit::hir_type::{
    StaticType, TY_ANY, TY_ARRAY, TY_BOOL, TY_FIXNUM, TY_HASH, TY_HEAP_OBJECT, TY_INTEGER,
    TY_STRING,
};
use zjit::tbaa::{AliasClass, MemoryOpTracker};

#[test]
fn classify_recognized_families() {
    let array = StaticType { mask: TY_ARRAY };
    let hash = StaticType { mask: TY_HASH };
    let string = StaticType { mask: TY_STRING };
    let integer = StaticType { mask: TY_INTEGER };
    let fixnum = StaticType { mask: TY_FIXNUM };
    assert_eq!(AliasClass::from_ivar_type(&array), AliasClass::ArrayIvar);
    assert_eq!(AliasClass::from_ivar_type(&hash), AliasClass::HashIvar);
    assert_eq!(AliasClass::from_ivar_type(&string), AliasClass::StringIvar);
    assert_eq!(AliasClass::from_ivar_type(&integer), AliasClass::IntegerIvar);
    assert_eq!(AliasClass::from_ivar_type(&fixnum), AliasClass::IntegerIvar);
}

#[test]
fn classify_mixed_and_unknown() {
    // A union of two heap families narrows to no single family, but is
    // still provably a heap object.
    let mixed_heap = StaticType { mask: TY_ARRAY | TY_HASH };
    assert_eq!(AliasClass::from_ivar_type(&mixed_heap), AliasClass::OtherIvar);
    let any_heap = StaticType { mask: TY_HEAP_OBJECT };
    assert_eq!(AliasClass::from_ivar_type(&any_heap), AliasClass::OtherIvar);
    // A type admitting immediates narrows to no family at all.
    let any = StaticType { mask: TY_ANY };
    assert_eq!(AliasClass::from_ivar_type(&any), AliasClass::Unknown);
    let maybe_bool = StaticType { mask: TY_ARRAY | TY_BOOL };
    assert_eq!(AliasClass::from_ivar_type(&maybe_bool), AliasClass::Unknown);
}

#[test]
fn analyze_records_memory_ops() {
    let mut fun = Function::new();
    let block = fun.new_block();
    let recv_a = fun.push_insn(block, Insn::Param { ty: StaticType { mask: TY_ARRAY } });
    let recv_h = fun.push_insn(block, Insn::Param { ty: StaticType { mask: TY_HASH } });
    let load_a = fun.push_insn(block, Insn::GetIvar { self_val: recv_a, id: 7 });
    let load_h = fun.push_insn(block, Insn::GetIvar { self_val: recv_h, id: 7 });
    let store_g = fun.push_insn(block, Insn::SetGlobal { id: 3, val: load_a });
    let load_l = fun.push_insn(block, Insn::GetLocal { level: 0, ep_offset: 2 });
    let skipped = fun.push_insn(block, Insn::Other);

    let mut tracker = MemoryOpTracker::new();
    tracker.analyze(&fun);

    // Non-memory instructions get no entry; parameters get none either.
    assert!(tracker.get_location(recv_a).is_none());
    assert!(tracker.get_location(skipped).is_none());
    // Memory operations are recorded with their derived locations.
    assert!(tracker.get_location(load_a).is_some());
    assert!(tracker.get_location(store_g).is_some());
    assert!(tracker.get_location(load_l).is_some());
    // Loads from receivers of provably different families never alias.
    assert!(!tracker.may_alias(load_a, load_h));
    // A load and a store of different kinds never alias.
    assert!(!tracker.may_alias(load_a, store_g));
    assert!(!tracker.may_alias(store_g, load_l));
    // Every location aliases itself.
    assert!(tracker.may_alias(load_a, load_a));
}

#[test]
fn analyze_same_receiver_fields() {
    let mut fun = Function::new();
    let block = fun.new_block();
    let recv = fun.push_insn(block, Insn::Param { ty: StaticType { mask: TY_ARRAY } });
    let load1 = fun.push_insn(block, Insn::GetIvar { self_val: recv, id: 1 });
    let load2 = fun.push_insn(block, Insn::GetIvar { self_val: recv, id: 2 });
    let store1 = fun.push_insn(block, Insn::SetIvar { self_val: recv, id: 1, val: load2 });

    let mut tracker = MemoryOpTracker::new();
    tracker.analyze(&fun);

    // Identical receiver: distinct fields provably never alias.
    assert!(!tracker.may_alias(load1, load2));
    // The same field through the same receiver aliases.
    assert!(tracker.may_alias(load1, store1));
}

#[test]
fn missing_info_may_alias_everything() {
    let mut fun = Function::new();
    let block = fun.new_block();
    let recv = fun.push_insn(block, Insn::Param { ty: StaticType { mask: TY_ARRAY } });
    let load = fun.push_insn(block, Insn::GetIvar { self_val: recv, id: 1 });
    let other = fun.push_insn(block, Insn::Other);

    let mut tracker = MemoryOpTracker::new();
    tracker.analyze(&fun);

    // Absence of information is never proof of non-aliasing.
    assert!(tracker.may_alias(load, other));
    assert!(tracker.may_alias(other, load));
    assert!(tracker.may_alias(other, other));
    assert!(tracker.may_alias(InsnId(1000), load));
}
