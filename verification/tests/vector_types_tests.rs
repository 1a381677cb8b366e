use metal_frame::vector_types::vector_uint2;

#[test]
fn lanes_come_back_as_given() {
    let v = vector_uint2::new(300, 200);
    assert_eq!(v.x(), 300);
    assert_eq!(v.y(), 200);
}

#[test]
fn x_is_the_low_half_and_y_the_high_half() {
    assert_eq!(vector_uint2::new(1, 2).to_bits(), 0x0000_0002_0000_0001);
    assert_eq!(vector_uint2::new(0xdead_beef, 0).to_bits(), 0x0000_0000_dead_beef);
    assert_eq!(vector_uint2::new(0, 0xdead_beef).to_bits(), 0xdead_beef_0000_0000);
}

#[test]
fn lanes_do_not_spill_into_each_other() {
    let v = vector_uint2::new(u32::MAX, 0);
    assert_eq!(v.x(), u32::MAX);
    assert_eq!(v.y(), 0);
    let v = vector_uint2::new(0, u32::MAX);
    assert_eq!(v.x(), 0);
    assert_eq!(v.y(), u32::MAX);
    let v = vector_uint2::new(u32::MAX, u32::MAX);
    assert_eq!(v.x(), u32::MAX);
    assert_eq!(v.y(), u32::MAX);
    assert_eq!(v.to_bits(), u64::MAX);
}

#[test]
fn zero_vector_is_the_zero_word() {
    let v = vector_uint2::new(0, 0);
    assert_eq!(v.to_bits(), 0);
    assert_eq!((v.x(), v.y()), (0, 0));
}

#[test]
fn vectors_with_the_same_lanes_are_equal() {
    let a = vector_uint2::new(7, 9);
    let b = vector_uint2::new(a.x(), a.y());
    assert_eq!(a, b);
    assert_ne!(a, vector_uint2::new(9, 7));
}

#[test]
fn a_copy_is_the_same_vector() {
    let a = vector_uint2::new(12, 34);
    let b = a;
    assert_eq!(a, b);
    assert_eq!(b.x(), 12);
}
