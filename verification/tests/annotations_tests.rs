use zjit::annotations::{catalog, init, FnProperties, MethodName, RubyClass, Specializer};
use zjit::hir_type::{StaticType, TY_BOOL, TY_FIXNUM, TY_INTEGER};

fn keys_for_catalog() -> Vec<u64> {
    // A synthetic resolution: distinct native-function identities.
    let n = catalog().len();
    let mut keys = Vec::new();
    let mut i: u64 = 0;
    while (i as usize) < n {
        keys.push(0x1000 + i * 8);
        i += 1;
    }
    keys
}

#[test]
fn lookup_unregistered_returns_none() {
    let annotations = init(&keys_for_catalog());
    assert_eq!(annotations.lookup(0xdead), None);
    assert_eq!(annotations.get_cfunc_properties(Some(0xdead)), None);
    // A method that resolves to no native identity fails open.
    assert_eq!(annotations.get_cfunc_properties(None), None);
}

#[test]
fn lookup_registered_returns_exact_properties() {
    let keys = keys_for_catalog();
    let annotations = init(&keys);
    let entries = catalog();
    let mut i = 0;
    while i < entries.len() {
        let got = annotations.lookup(keys[i]).unwrap();
        assert_eq!(got, entries[i].props);
        assert_eq!(annotations.get_cfunc_properties(Some(keys[i])), Some(entries[i].props));
        i += 1;
    }
}

#[test]
fn catalog_contents() {
    let entries = catalog();
    assert_eq!(entries.len(), 17);
    // The identity method is inlinable and observably pure.
    assert_eq!(entries[0].class, RubyClass::MKernel);
    assert_eq!(entries[0].method, MethodName::Itself);
    assert!(entries[0].props.no_gc && entries[0].props.leaf);
    assert_eq!(entries[0].props.inline, Some(Specializer::KernelItself));
    // Container length queries are elidable.
    assert_eq!(entries[4].class, RubyClass::CArray);
    assert_eq!(entries[4].method, MethodName::Length);
    assert!(entries[4].props.elidable);
    assert_eq!(entries[4].props.return_type, StaticType { mask: TY_FIXNUM });
    // Integer addition returns an integer and carries its specializer.
    assert_eq!(entries[7].class, RubyClass::CInteger);
    assert_eq!(entries[7].method, MethodName::OpAdd);
    assert_eq!(entries[7].props.return_type, StaticType { mask: TY_INTEGER });
    assert_eq!(entries[7].props.inline, Some(Specializer::FixnumAdd));
    // Equality and greater-than each carry their own comparison rule.
    assert_eq!(entries[12].method, MethodName::OpEq);
    assert_eq!(entries[12].props.inline, Some(Specializer::FixnumEq));
    assert_eq!(entries[15].method, MethodName::OpGt);
    assert_eq!(entries[15].props.inline, Some(Specializer::FixnumGt));
    assert_eq!(entries[15].props.return_type, StaticType { mask: TY_BOOL });
}

#[test]
fn conservative_fallback_properties() {
    let props = FnProperties::conservative();
    assert!(!props.no_gc);
    assert!(!props.leaf);
    assert!(!props.elidable);
    assert!(props.inline.is_none());
    assert!(!props.can_eliminate_unused());
}

#[test]
fn elimination_requires_purity() {
    let entries = catalog();
    // Array#length: elidable and pure, so removable when unused.
    assert!(entries[4].props.can_eliminate_unused());
    // Kernel#itself: pure but not marked elidable.
    assert!(!entries[0].props.can_eliminate_unused());
    // Integer#+: neither pure nor elidable.
    assert!(!entries[7].props.can_eliminate_unused());
    // Elidable alone is not enough without purity.
    let impure = FnProperties {
        no_gc: false,
        leaf: true,
        return_type: StaticType { mask: TY_FIXNUM },
        elidable: true,
        inline: None,
    };
    assert!(!impure.can_eliminate_unused());
}

#[test]
fn last_registration_wins_for_shared_identity() {
    // Array#length and Array#size may resolve to one native function; the
    // registry then keeps the later entry's properties.
    let mut keys = keys_for_catalog();
    keys[4] = 0x2000;
    keys[5] = 0x2000;
    let annotations = init(&keys);
    let entries = catalog();
    assert_eq!(annotations.lookup(0x2000), Some(entries[5].props));
}
