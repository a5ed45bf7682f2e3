use sandbox_sdk::fname::{FName, FNameEntry};
use sandbox_sdk::tarray::TArray;
use sandbox_sdk::ueptr;

#[test]
fn tarray_indices_below_length_succeed_and_rest_fail() {
    // A view with capacity 6 and length 4: 0..4 succeed, 4..6 fail.
    let backing = vec![10i64, 11, 12, 13, 94, 95];
    let a = TArray::new(backing, 4).unwrap();
    for i in 0..4i32 {
        assert_eq!(a.get(i), Some(&(10 + i as i64)));
    }
    for i in 4..6i32 {
        assert_eq!(a.get(i), None);
    }
    assert_eq!(a.get(6), None);
    assert_eq!(a.get(-1), None);
    assert_eq!(a.num(), 4);
    assert_eq!(a.max(), 6);
}

#[test]
fn tarray_every_length_up_to_capacity() {
    let backing = vec![0u8; 5];
    for n in 0..=5usize {
        let a = TArray::new(backing.clone(), n).unwrap();
        for i in 0..5i32 {
            assert_eq!(a.get(i).is_some(), (i as usize) < n);
        }
    }
}

#[test]
fn tarray_rejects_length_over_capacity() {
    assert!(TArray::new(vec![0u8; 3], 4).is_none());
}

#[test]
fn tarray_get_mut_bounds_and_update() {
    let mut a = TArray::new(vec![1u32, 2, 3, 9], 3).unwrap();
    match a.get_mut(1) {
        Some(v) => *v = 20,
        None => panic!("index 1 is live"),
    }
    assert_eq!(a.get(1), Some(&20));
    assert!(a.get_mut(3).is_none());
    assert!(a.get_mut(-2).is_none());
}

#[test]
fn tarray_as_slice_is_live_prefix() {
    let a = TArray::new(vec![7u8, 8, 9, 0], 2).unwrap();
    assert_eq!(a.as_slice(), &[7u8, 8]);
}

#[test]
fn tarray_as_mut_slice_spans_the_capacity() {
    let mut a = TArray::new(vec![7u8, 8, 9, 0], 2).unwrap();
    {
        let s = a.as_mut_slice();
        assert_eq!(s.len(), 4);
        s[3] = 42;
    }
    // The live bounds are unchanged: the written slot is still out of view.
    assert_eq!(a.get(3), None);
    assert_eq!(a.as_slice(), &[7u8, 8]);
}

#[test]
fn ueptr_identity_is_address_identity() {
    let a: ueptr<u64> = ueptr::new(0x40);
    let b: ueptr<u64> = ueptr::new(0x40);
    let c: ueptr<u64> = ueptr::new(0x41);
    assert!(a == b);
    assert!(a != c);
    assert_eq!(a.ptr(), 0x40);
}

#[test]
fn ueptr_cast_keeps_address() {
    let a: ueptr<u64> = ueptr::new(0x1234);
    let b: ueptr<u8> = a.ptr_cast();
    assert_eq!(b.ptr(), 0x1234);
}

#[test]
fn fname_carries_entry_and_instance() {
    let n = FName::new(7, 2);
    assert_eq!(n.FNameEntryId, 7);
    assert_eq!(n.InstanceNumber, 2);
    assert_eq!(n, FName::new(7, 2));
    assert_ne!(n, FName::new(7, 3));
    let e = FNameEntry::new(String::from("None"));
    assert_eq!(e.Name.as_str(), "None");
}
