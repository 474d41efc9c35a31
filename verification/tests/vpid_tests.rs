use bedrock_vmx::traits::vpid::{
    allocate_vpid, count_allocated_vpids, deallocate_vpid, peek_next_vpid, reset_vpid_counter,
    VpidAllocator,
};

#[test]
fn test_vpid_allocation() {
    let mut a = VpidAllocator::new();
    reset_vpid_counter(&mut a);

    let vpid1 = allocate_vpid(&mut a);
    assert_ne!(vpid1, 0, "VPID should never be 0");

    let vpid2 = allocate_vpid(&mut a);
    assert_ne!(vpid2, 0);
    assert_ne!(vpid2, vpid1, "Each allocation should return a unique VPID");

    let vpid3 = allocate_vpid(&mut a);
    assert_ne!(vpid3, 0);
    assert_ne!(vpid3, vpid1);
    assert_ne!(vpid3, vpid2);

    deallocate_vpid(&mut a, vpid1);
    deallocate_vpid(&mut a, vpid2);
    deallocate_vpid(&mut a, vpid3);
}

#[test]
fn test_vpid_never_zero() {
    let mut a = VpidAllocator::new();
    reset_vpid_counter(&mut a);

    let mut vpids = Vec::new();
    for _ in 0..1000 {
        let vpid = allocate_vpid(&mut a);
        assert_ne!(vpid, 0, "VPID should never be 0");
        vpids.push(vpid);
    }

    for vpid in vpids {
        deallocate_vpid(&mut a, vpid);
    }
}

#[test]
fn test_vpid_recycling() {
    let mut a = VpidAllocator::new();
    reset_vpid_counter(&mut a);

    let vpid1 = allocate_vpid(&mut a);
    assert_ne!(vpid1, 0);

    deallocate_vpid(&mut a, vpid1);

    let vpid2 = allocate_vpid(&mut a);
    assert_ne!(vpid2, 0);

    deallocate_vpid(&mut a, vpid2);
}

#[test]
fn test_vpid_high_churn() {
    let mut a = VpidAllocator::new();
    reset_vpid_counter(&mut a);

    for _ in 0..10000 {
        let vpid = allocate_vpid(&mut a);
        assert_ne!(vpid, 0);
        deallocate_vpid(&mut a, vpid);
    }

    let vpid = allocate_vpid(&mut a);
    assert_ne!(vpid, 0);
    deallocate_vpid(&mut a, vpid);
}

#[test]
fn test_vpid_count() {
    let mut a = VpidAllocator::new();
    let vpid = allocate_vpid(&mut a);
    let count = count_allocated_vpids(&a);
    assert!(count >= 1, "Should have at least 1 VPID marked in use");
    deallocate_vpid(&mut a, vpid);
}

#[test]
fn vpid_allocation_order_and_counts() {
    let mut a = VpidAllocator::new();
    reset_vpid_counter(&mut a);
    assert_eq!(count_allocated_vpids(&a), 1);
    assert_eq!(peek_next_vpid(&a), 1);
    assert_eq!(allocate_vpid(&mut a), 1);
    assert_eq!(allocate_vpid(&mut a), 2);
    assert_eq!(allocate_vpid(&mut a), 3);
    assert_eq!(peek_next_vpid(&a), 4);
    assert_eq!(count_allocated_vpids(&a), 4);
    deallocate_vpid(&mut a, 2);
    assert_eq!(peek_next_vpid(&a), 2);
    assert_eq!(count_allocated_vpids(&a), 3);
    assert_eq!(allocate_vpid(&mut a), 2);
    // VPID 0 can never be given back.
    deallocate_vpid(&mut a, 0);
    assert_eq!(count_allocated_vpids(&a), 4);
}

#[test]
fn vpid_search_wraps_to_lower_words() {
    let mut a = VpidAllocator::new();
    reset_vpid_counter(&mut a);
    // Fill word 0 (VPIDs 1..63).
    for expected in 1..64u16 {
        assert_eq!(allocate_vpid(&mut a), expected);
    }
    assert_eq!(allocate_vpid(&mut a), 64);
    deallocate_vpid(&mut a, 5);
    // The hint moved back to 5, so 5 is found first.
    assert_eq!(allocate_vpid(&mut a), 5);
}

#[test]
fn allocations_after_reset_count_up_from_one() {
    let mut a = VpidAllocator::new();
    reset_vpid_counter(&mut a);
    assert_eq!(count_allocated_vpids(&a), 1);
    for expected in 1..=200u16 {
        assert_eq!(allocate_vpid(&mut a), expected);
        assert_eq!(count_allocated_vpids(&a), expected as usize + 1);
        assert_eq!(peek_next_vpid(&a), expected + 1);
    }
}

#[test]
fn freed_vpid_is_handed_out_again() {
    let mut a = VpidAllocator::new();
    reset_vpid_counter(&mut a);
    let v = allocate_vpid(&mut a);
    assert_eq!(v, 1);
    deallocate_vpid(&mut a, v);
    assert_eq!(count_allocated_vpids(&a), 1);
    assert_eq!(peek_next_vpid(&a), 1);
    assert_eq!(allocate_vpid(&mut a), 1);
}
