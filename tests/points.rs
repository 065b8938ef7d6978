use pointext::{pointdist, ConstPoint, MutPoint, NonNullPoint, PointExt};

#[test]
fn distance_of_int32_elements() {
    let a = ConstPoint::<i32>::new(4096);
    let b = ConstPoint::<i32>::new(4096 + 40);
    assert_eq!(pointdist(a, b), 10);
}

#[test]
fn distance_rounds_down_to_whole_elements() {
    let a = ConstPoint::<u64>::new(64);
    let b = ConstPoint::<u64>::new(64 + 23);
    assert_eq!(pointdist(a, b), 2);
}

#[test]
fn distance_of_equal_points_is_zero() {
    let a = ConstPoint::<i32>::new(300);
    assert_eq!(pointdist(a, a), 0);
}

#[test]
fn distance_of_zero_sized_elements_is_unscaled() {
    let a = ConstPoint::<()>::new(100);
    let b = ConstPoint::<()>::new(107);
    assert_eq!(pointdist(a, b), 7);
}

#[test]
fn distance_of_zero_sized_elements_wraps_backwards() {
    let a = ConstPoint::<()>::new(12);
    let b = ConstPoint::<()>::new(5);
    assert_eq!(pointdist(a, b), usize::MAX - 6);
}

#[test]
fn offset_scales_by_element_size() {
    let p = ConstPoint::<u32>::new(1000);
    assert_eq!(p.offset(5).addr(), 1020);
    assert_eq!(p.offset(-5).addr(), 980);
    assert_eq!(p.offset(0).addr(), 1000);
}

#[test]
fn add_then_sub_returns_to_start() {
    let p = ConstPoint::<u16>::new(500);
    assert_eq!(p.add(7).addr(), 514);
    assert!(p.add(7).sub(7) == p);
    let m = MutPoint::<u64>::new(800);
    assert!(m.add(3).sub(3) == m);
    let n = NonNullPoint::<u8>::new_unchecked(9);
    assert!(n.add(100).sub(100) == n);
    assert!(n.add(1) != n);
}

#[test]
fn sub_moves_back() {
    let p = MutPoint::<i32>::new(400);
    assert_eq!(p.sub(10).addr(), 360);
}

#[test]
fn sub_of_largest_count_is_offset_by_its_negation() {
    let p = ConstPoint::<i32>::new(2000);
    let wrapped = (usize::MAX as isize).wrapping_neg();
    assert_eq!(wrapped, 1);
    assert!(p.sub(usize::MAX) == p.offset(wrapped));
    assert_eq!(p.sub(usize::MAX).addr(), 2004);
}

#[test]
fn sub_of_huge_count_on_zero_sized_elements_stays() {
    let p = MutPoint::<()>::new(77);
    assert_eq!(p.sub(usize::MAX).addr(), 77);
    assert_eq!(p.sub(isize::MAX as usize + 1).addr(), 77);
    assert_eq!(p.add(usize::MAX).addr(), 77);
}

#[test]
fn preinc_matches_offset_one() {
    let p = ConstPoint::<u32>::new(64);
    let mut q = p;
    let r = q.preinc();
    assert!(r == p.offset(1));
    assert!(q == r);
    assert_eq!(q.addr(), 68);
}

#[test]
fn postinc_returns_old_point() {
    let mut q = MutPoint::<u64>::new(128);
    let p = q;
    let r = q.postinc();
    assert!(r == p);
    assert!(q == p.offset(1));
    assert_eq!(r.addr(), 128);
    assert_eq!(q.addr(), 136);
}

#[test]
fn predec_and_postdec_move_back() {
    let mut q = ConstPoint::<u16>::new(50);
    let r = q.predec();
    assert_eq!(r.addr(), 48);
    assert_eq!(q.addr(), 48);
    let s = q.postdec();
    assert_eq!(s.addr(), 48);
    assert_eq!(q.addr(), 46);
}

#[test]
fn inc_and_dec_move_receiver() {
    let mut q = MutPoint::<i32>::new(20);
    q.inc();
    q.inc();
    assert_eq!(q.addr(), 28);
    q.dec();
    assert_eq!(q.addr(), 24);
}

#[test]
fn strideoffset_is_offset_of_product() {
    let p = ConstPoint::<i32>::new(1000);
    assert!(p.strideoffset(3, 4) == p.offset(12));
    assert_eq!(p.strideoffset(3, 4).addr(), 1048);
    assert_eq!(p.strideoffset(-2, 5).addr(), 960);
    assert_eq!(p.strideoffset(0, usize::MAX).addr(), 1000);
}

#[test]
fn null_points_report_null() {
    assert!(ConstPoint::<u8>::new(0).is_null());
    assert!(!ConstPoint::<u8>::new(1).is_null());
    assert!(MutPoint::<u8>::new(0).is_null());
}

#[test]
fn non_null_rejects_zero() {
    assert!(NonNullPoint::<u32>::new(0).is_none());
    let p = NonNullPoint::<u32>::new(16).unwrap();
    assert_eq!(p.addr(), 16);
    assert_eq!(p.as_mut_point().addr(), 16);
}

#[test]
fn non_null_stays_non_null_through_arithmetic() {
    let mut p = NonNullPoint::<u32>::new(4).unwrap();
    p = p.offset(10);
    p = p.add(3);
    p = p.sub(12);
    p.inc();
    p.dec();
    p.dec();
    let _ = p.preinc();
    let _ = p.postdec();
    assert!(!p.is_null());
    assert_eq!(p.addr(), 4);
    let q = p.strideoffset(-1, 0);
    assert!(!q.is_null());
    assert_eq!(q.addr(), 4);
}
