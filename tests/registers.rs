use skyline::hooks::{CpuRegister, FpuRegister, VectorRegister};

#[test]
fn cpu_register_views() {
    let r = CpuRegister(0x1234_5678_9abc_def0);
    assert_eq!(r.x(), 0x1234_5678_9abc_def0);
    assert_eq!(r.w(), 0x9abc_def0);
    assert_eq!(r.r(), 0x9abc_def0);
}

#[test]
fn cpu_register_setters() {
    let mut r = CpuRegister(u64::MAX);
    r.set_w(0x1122_3344);
    assert_eq!(r.x(), 0x1122_3344);
    r.set_x(0xdead_beef_0000_0001);
    assert_eq!(r.x(), 0xdead_beef_0000_0001);
    r.set_r(7);
    assert_eq!(r.x(), 7);
}

#[test]
fn vector_register_lanes() {
    let v = VectorRegister(0x0f0e_0d0c_0b0a_0908_0706_0504_0302_0100);
    assert_eq!(v.v(), 0x0f0e_0d0c_0b0a_0908_0706_0504_0302_0100);
    assert_eq!(
        v.b(),
        [0, 1, 2, 3, 4, 5, 6, 7, 8, 9, 10, 11, 12, 13, 14, 15]
    );
    assert_eq!(
        v.h(),
        [0x0100, 0x0302, 0x0504, 0x0706, 0x0908, 0x0b0a, 0x0d0c, 0x0f0e]
    );
}

#[test]
fn vector_register_set_lane_keeps_others() {
    let mut v = VectorRegister(u128::MAX);
    v.set_h(3, 0x1234);
    assert_eq!(v.h(), [0xffff, 0xffff, 0xffff, 0x1234, 0xffff, 0xffff, 0xffff, 0xffff]);
    v.set_b(15, 0);
    assert_eq!(v.v(), 0x00ff_ffff_ffff_ffff_1234_ffff_ffff_ffff);
    v.set_b(0, 0x42);
    assert_eq!(v.b()[0], 0x42);
    assert_eq!(v.b()[1], 0xff);
    v.set_v(5);
    assert_eq!(v.v(), 5);
}

#[test]
fn fpu_register_scalar_setters_clear_upper_bits() {
    let mut f = FpuRegister(u128::MAX);
    assert_eq!(f.h(), 0xffff);
    assert_eq!(f.b(), 0xff);
    f.set_h(0xabcd);
    assert_eq!(f.q(), 0xabcd);
    f.set_q(u128::MAX);
    f.set_b(0x12);
    assert_eq!(f.q(), 0x12);
    assert_eq!(f.as_vec().v(), 0x12);
    assert_eq!(f.as_vec().b()[0], 0x12);
}

#[test]
fn vector_register_wide_lanes() {
    let mut v = VectorRegister(0x4444_4444_3333_3333_2222_2222_1111_1111);
    assert_eq!(v.d_bits(), [0x2222_2222_1111_1111, 0x4444_4444_3333_3333]);
    assert_eq!(v.s_bits(), [0x1111_1111, 0x2222_2222, 0x3333_3333, 0x4444_4444]);
    v.set_d_bits(1, 0xaaaa_aaaa_bbbb_bbbb);
    assert_eq!(v.v(), 0xaaaa_aaaa_bbbb_bbbb_2222_2222_1111_1111);
    v.set_s_bits(0, 0xcccc_cccc);
    assert_eq!(v.v(), 0xaaaa_aaaa_bbbb_bbbb_2222_2222_cccc_cccc);
    // The bits of 1.0f64 in the low lane.
    v.set_d_bits(0, 0x3ff0_0000_0000_0000);
    assert_eq!(v.d_bits()[0], 0x3ff0_0000_0000_0000);
}

#[test]
fn fpu_register_wide_scalars() {
    let mut f = FpuRegister(0x5555_5555_4444_4444_3333_3333_2222_2222);
    assert_eq!(f.d_bits(), 0x3333_3333_2222_2222);
    assert_eq!(f.s_bits(), 0x2222_2222);
    f.set_d_bits(0x3ff0_0000_0000_0000);
    assert_eq!(f.q(), 0x3ff0_0000_0000_0000);
    f.set_s_bits(0x3f80_0000);
    assert_eq!(f.q(), 0x3f80_0000);
}
