use sv2_core::extranonce::{
    ExtranoncePrefixFactoryError, Sv2ExtranoncePrefixFactoryExtended,
    Sv2ExtranoncePrefixFactoryStandard,
};

#[test]
fn allocator_with_static_prefix_rejects_large_rollable_request() {
    // a 4-byte static prefix plus a 4-byte allocation leaves 24 rollable
    // bytes, so asking for 30 must fail
    let mut f =
        Sv2ExtranoncePrefixFactoryExtended::new(4, Some(vec![1, 2, 3, 4])).expect("fits");
    let r = f.next_extranonce_prefix(30);
    assert_eq!(
        r,
        Err(ExtranoncePrefixFactoryError::FailedToCreateExtranoncePrefix)
    );
    // the same factory still serves a request that fits
    let p = f.next_extranonce_prefix(24).expect("fits");
    assert_eq!(p, vec![1, 2, 3, 4, 0, 0, 0, 0]);
}

#[test]
fn allocation_too_large_for_space_is_rejected() {
    let r = Sv2ExtranoncePrefixFactoryExtended::new(4, Some(vec![0; 29]));
    assert!(matches!(
        r,
        Err(ExtranoncePrefixFactoryError::FailedToCreateExtendedExtranonce)
    ));
}

#[test]
fn extended_prefixes_are_unique_and_ordered() {
    let mut f = Sv2ExtranoncePrefixFactoryExtended::new(2, None).expect("fits");
    let a = f.next_extranonce_prefix(0).expect("first");
    let b = f.next_extranonce_prefix(0).expect("second");
    let c = f.next_extranonce_prefix(0).expect("third");
    assert_eq!(a, vec![0, 0]);
    assert_eq!(b, vec![0, 1]);
    assert_eq!(c, vec![0, 2]);
    assert_ne!(a, b);
    assert_ne!(b, c);
    assert_ne!(a, c);
}

#[test]
fn counter_carries_across_bytes() {
    let mut f = Sv2ExtranoncePrefixFactoryExtended::new(2, None).expect("fits");
    for _ in 0..256 {
        f.next_extranonce_prefix(0).expect("in range");
    }
    let p = f.next_extranonce_prefix(0).expect("carried");
    assert_eq!(p, vec![1, 0]);
}

#[test]
fn standard_factory_exhausts_after_256() {
    let mut f = Sv2ExtranoncePrefixFactoryStandard::new(Some(vec![9])).expect("fits");
    let mut seen = Vec::new();
    for _ in 0..256 {
        let p = f.next_extranonce_prefix().expect("within budget");
        assert_eq!(p.len(), 2);
        assert_eq!(p[0], 9);
        assert!(!seen.contains(&p));
        seen.push(p);
    }
    let r = f.next_extranonce_prefix();
    assert_eq!(
        r,
        Err(ExtranoncePrefixFactoryError::FailedToCreateExtranoncePrefix)
    );
}

#[test]
fn standard_prefix_too_long_rejected() {
    let r = Sv2ExtranoncePrefixFactoryStandard::new(Some(vec![0; 32]));
    assert!(matches!(
        r,
        Err(ExtranoncePrefixFactoryError::FailedToCreateExtendedExtranonce)
    ));
}
