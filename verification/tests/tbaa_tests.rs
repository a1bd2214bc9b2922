use zjit::hir::InsnId;
use zjit::tbaa::{AliasClass, MemoryLocation};

#[test]
fn test_alias_class_same_type() {
    let array1 = AliasClass::ArrayIvar;
    let array2 = AliasClass::ArrayIvar;
    assert!(array1.may_alias(&array2));
}

#[test]
fn test_alias_class_different_types() {
    let array = AliasClass::ArrayIvar;
    let hash = AliasClass::HashIvar;
    assert!(!array.may_alias(&hash));
}

#[test]
fn test_alias_class_unknown() {
    let array = AliasClass::ArrayIvar;
    let unknown = AliasClass::Unknown;
    assert!(array.may_alias(&unknown));
    assert!(unknown.may_alias(&array));
}

#[test]
fn test_memory_location_same_object_same_ivar() {
    let obj = InsnId(0);
    let loc1 = MemoryLocation::InstanceVariable(obj, 1, AliasClass::ArrayIvar);
    let loc2 = MemoryLocation::InstanceVariable(obj, 1, AliasClass::ArrayIvar);
    assert!(loc1.may_alias(&loc2));
}

#[test]
fn test_memory_location_same_object_different_ivar() {
    let obj = InsnId(0);
    let loc1 = MemoryLocation::InstanceVariable(obj, 1, AliasClass::ArrayIvar);
    let loc2 = MemoryLocation::InstanceVariable(obj, 2, AliasClass::ArrayIvar);
    assert!(!loc1.may_alias(&loc2));
}

#[test]
fn test_memory_location_different_objects_different_types() {
    let obj1 = InsnId(0);
    let obj2 = InsnId(1);
    let loc1 = MemoryLocation::InstanceVariable(obj1, 1, AliasClass::ArrayIvar);
    let loc2 = MemoryLocation::InstanceVariable(obj2, 1, AliasClass::HashIvar);
    // Different objects with different types don't alias
    assert!(!loc1.may_alias(&loc2));
}

#[test]
fn test_memory_location_different_objects_same_type() {
    let obj1 = InsnId(0);
    let obj2 = InsnId(1);
    let loc1 = MemoryLocation::InstanceVariable(obj1, 1, AliasClass::ArrayIvar);
    let loc2 = MemoryLocation::InstanceVariable(obj2, 1, AliasClass::ArrayIvar);
    // Different objects but same type may alias
    assert!(loc1.may_alias(&loc2));
}

#[test]
fn test_global_variables() {
    let loc1 = MemoryLocation::GlobalVariable(1);
    let loc2 = MemoryLocation::GlobalVariable(1);
    let loc3 = MemoryLocation::GlobalVariable(2);
    assert!(loc1.may_alias(&loc2));
    assert!(!loc1.may_alias(&loc3));
}

#[test]
fn test_local_variables() {
    let loc1 = MemoryLocation::LocalVariable(0, 1);
    let loc2 = MemoryLocation::LocalVariable(0, 1);
    let loc3 = MemoryLocation::LocalVariable(0, 2);
    let loc4 = MemoryLocation::LocalVariable(1, 1);
    assert!(loc1.may_alias(&loc2));
    assert!(!loc1.may_alias(&loc3));
    assert!(!loc1.may_alias(&loc4));
}

#[test]
fn test_cross_type_no_alias() {
    let ivar = MemoryLocation::InstanceVariable(InsnId(0), 1, AliasClass::ArrayIvar);
    let global = MemoryLocation::GlobalVariable(1);
    let local = MemoryLocation::LocalVariable(0, 1);

    assert!(!ivar.may_alias(&global));
    assert!(!ivar.may_alias(&local));
    assert!(!global.may_alias(&local));
}

#[test]
fn test_same_object_different_ivar_unknown_class() {
    let obj = InsnId(0);
    let loc1 = MemoryLocation::InstanceVariable(obj, 1, AliasClass::Unknown);
    let loc2 = MemoryLocation::InstanceVariable(obj, 2, AliasClass::ArrayIvar);
    // An Unknown class keeps even distinct fields of one object aliased
    assert!(loc1.may_alias(&loc2));
    assert!(loc2.may_alias(&loc1));
}
