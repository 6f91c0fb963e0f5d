use rt_kernel::task_set::{TaskSet, MAX_TASKS};

#[test]
fn capacity_is_the_mask_width() {
    assert_eq!(MAX_TASKS, 32);
}

#[test]
fn empty_set_has_no_member() {
    let s = TaskSet::empty();
    assert_eq!(s.mask(), 0);
    assert_eq!(s.lowest(), None);
    assert!(!s.contains(0));
}

#[test]
fn with_and_without_change_one_member() {
    let s = TaskSet::empty().with(3).with(31).with(3);
    assert_eq!(s.mask(), 0x8000_0008);
    assert!(s.contains(3));
    assert!(s.contains(31));
    assert!(!s.contains(4));
    assert!(!s.contains(32));
    assert!(!s.contains(35));
    let t = s.without(3);
    assert_eq!(t.mask(), 0x8000_0000);
    assert_eq!(t.without(3), t);
    assert_eq!(t.without(63), t);
    assert_eq!(s.mask(), 0x8000_0008);
}

#[test]
fn set_algebra_follows_the_masks() {
    let a = TaskSet::from_mask(0b1100);
    let b = TaskSet::from_mask(0b1010);
    assert_eq!(a.union(&b).mask(), 0b1110);
    assert_eq!(a.intersect(&b).mask(), 0b1000);
    assert_eq!(a.difference(&b).mask(), 0b0100);
    assert_eq!(b.difference(&a).mask(), 0b0010);
}

#[test]
fn lowest_is_the_least_member() {
    assert_eq!(TaskSet::from_mask(0b1011_0000).lowest(), Some(4));
    assert_eq!(TaskSet::from_mask(1).lowest(), Some(0));
    assert_eq!(TaskSet::from_mask(0x8000_0000).lowest(), Some(31));
    assert_eq!(TaskSet::from_mask(u32::MAX).lowest(), Some(0));
    assert_eq!(TaskSet::from_mask(0).lowest(), None);
}
