use glium_types::vectors::{
    bvec2, bvec3, bvec4, divec2, divec3, divec4, duvec2, duvec3, duvec4, ivec2, ivec3, ivec4,
    uvec2, uvec3, uvec4, BVec2, BVec3, BVec4, DIVec2, DIVec3, DIVec4, DUVec2, DUVec3, DUVec4,
    IVec2, IVec3, IVec4, UVec2, UVec3, UVec4,
};

#[test]
fn cross_of_x_and_y_axes_is_z_axis() {
    assert_eq!(IVec3::x_axis().cross(IVec3::y_axis()), IVec3::z_axis());
    assert_eq!(DIVec3::x_axis().cross(DIVec3::y_axis()), DIVec3::z_axis());
    assert_eq!(UVec3::x_axis().cross(UVec3::y_axis()), UVec3::z_axis());
    assert_eq!(DUVec3::x_axis().cross(DUVec3::y_axis()), DUVec3::z_axis());
    let x = ivec3(1, 0, 0);
    let y = ivec3(0, 1, 0);
    let z = ivec3(0, 0, 1);
    assert!(x.cross(y) == z);
}

#[test]
fn cross_is_anticommutative() {
    let a = ivec3(2, -3, 5);
    let b = ivec3(-7, 11, 4);
    assert_eq!(a.cross(b), ivec3(-67, -43, 1));
    assert_eq!(a.cross(b), -b.cross(a));
    let c = divec3(1_000_000_007, -3, 12);
    let d = divec3(-5, 400_000, 9);
    assert_eq!(c.cross(d), -d.cross(c));
    assert_eq!(a.cross(a), IVec3::zero());
}

#[test]
fn cross_is_perpendicular_to_operands() {
    let a = ivec3(3, -1, 4);
    let b = ivec3(1, 5, -9);
    let c = a.cross(b);
    assert_eq!(c.dot(a), 0);
    assert_eq!(c.dot(b), 0);
}

#[test]
fn dot_and_lengths() {
    assert_eq!(ivec2(3, 4).length_squared(), 25);
    assert_eq!(ivec3(1, 2, 3).dot(ivec3(4, -5, 6)), 12);
    assert_eq!(ivec4(1, 2, 3, 4).length_squared(), 30);
    assert_eq!(ivec2(1, 1).distance_squared(ivec2(4, 5)), 25);
    assert_eq!(divec4(1, 1, 1, 1).distance_squared(divec4(2, 3, 4, 5)), 30);
    assert_eq!(uvec3(1, 2, 3).dot(uvec3(4, 5, 6)), 32);
    assert_eq!(uvec2(5, 7).distance_squared(uvec2(1, 4)), 25);
    assert_eq!(duvec4(1, 2, 3, 4).dot(duvec4(1, 1, 1, 1)), 10);
    assert_eq!(duvec2(3_000_000_000, 0).length_squared(), 9_000_000_000_000_000_000);
    assert_eq!(divec2(-3, 4).length_squared(), 25);
}

#[test]
fn dot_partial_sums_may_reach_the_bounds() {
    let big = ivec2(i32::MAX, 1);
    assert_eq!(big.dot(ivec2(1, -1)), i32::MAX - 1);
    assert_eq!(ivec2(46340, 0).length_squared(), 46340 * 46340);
}

#[test]
fn componentwise_arithmetic() {
    assert_eq!(ivec3(1, 2, 3) + ivec3(4, 5, 6), ivec3(5, 7, 9));
    assert_eq!(ivec3(1, 2, 3) - ivec3(4, 5, 6), ivec3(-3, -3, -3));
    assert_eq!(ivec3(1, 2, 3) * ivec3(4, 5, 6), ivec3(4, 10, 18));
    assert_eq!(uvec4(9, 8, 7, 6) - uvec4(1, 2, 3, 4), uvec4(8, 6, 4, 2));
    assert_eq!(duvec3(2, 3, 4) * duvec3(5, 6, 7), duvec3(10, 18, 28));
    assert_eq!(-divec2(3, -4), divec2(-3, 4));
    assert_eq!(-ivec4(1, -2, 0, i32::MAX), ivec4(-1, 2, 0, -i32::MAX));
}

#[test]
fn signed_division_rounds_toward_zero() {
    assert_eq!(ivec2(-7, 7) / ivec2(2, -2), ivec2(-3, -3));
    assert_eq!(ivec2(-7, -7) / ivec2(-2, 2), ivec2(3, -3));
    assert_eq!(ivec3(7, i32::MIN, 5) / ivec3(i32::MIN, i32::MIN, -1), ivec3(0, 1, -5));
    assert_eq!(divec3(-9, 9, i64::MIN) / divec3(4, 4, 2), divec3(-2, 2, i64::MIN / 2));
    assert_eq!(divec4(10, -10, 10, -10) / 3, divec4(3, -3, 3, -3));
}

#[test]
fn signed_remainder_takes_sign_of_dividend() {
    assert_eq!(ivec2(-7, 7) % ivec2(2, -2), ivec2(-1, 1));
    assert_eq!(ivec3(-7, 7, 0) % ivec3(-3, 3, 5), ivec3(-1, 1, 0));
    assert_eq!(divec2(i64::MIN, 13) % divec2(i64::MIN, -5), divec2(0, 3));
    assert_eq!(ivec4(-9, 9, -9, 9) % 4, ivec4(-1, 1, -1, 1));
}

#[test]
fn scalar_on_the_left() {
    assert_eq!(12 / ivec2(5, -5), ivec2(2, -2));
    assert_eq!(12 % ivec3(5, -5, 12), ivec3(2, 2, 0));
    assert_eq!(3 * ivec4(1, 2, 3, 4), ivec4(3, 6, 9, 12));
    assert_eq!(100u32 / uvec3(3, 7, 100), uvec3(33, 14, 1));
    assert_eq!(100u64 % duvec2(3, 7), duvec2(1, 2));
    assert_eq!(2i64 * divec3(-1, 0, 1), divec3(-2, 0, 2));
}

#[test]
fn unsigned_division_and_scale() {
    assert_eq!(uvec2(7, 9) / uvec2(2, 4), uvec2(3, 2));
    assert_eq!(uvec2(7, 9) % uvec2(2, 4), uvec2(1, 1));
    assert_eq!(duvec4(8, 9, 10, 11) / 3, duvec4(2, 3, 3, 3));
    assert_eq!(uvec3(1, 2, 3).scale(4), uvec3(4, 8, 12));
    assert_eq!(uvec4(1, 2, 3, 4) * 2, uvec4(2, 4, 6, 8));
    assert_eq!(ivec2(1, -2).scale(-3), ivec2(-3, 6));
}

#[test]
fn componentwise_comparisons() {
    let a = ivec3(1, 5, 3);
    let b = ivec3(2, 5, 1);
    assert_eq!(a.eq(b), bvec3(false, true, false));
    assert_eq!(a.less(b), bvec3(true, false, false));
    assert_eq!(a.more(b), bvec3(false, false, true));
    assert_eq!(a.less_or_eq(b), bvec3(true, true, false));
    assert_eq!(a.more_or_eq(b), bvec3(false, true, true));
    assert_eq!(uvec2(1, 2).less(uvec2(2, 1)), bvec2(true, false));
    assert_eq!(duvec4(1, 2, 3, 4).more_or_eq(duvec4(4, 2, 1, 5)), bvec4(false, true, true, false));
    assert_eq!(divec2(-1, 0).eq(divec2(-1, 1)), bvec2(true, false));
}

#[test]
fn constants_and_constructors() {
    assert_eq!(IVec2::zero(), ivec2(0, 0));
    assert_eq!(IVec4::one(), IVec4::splat(1));
    assert_eq!(UVec4::w_axis(), uvec4(0, 0, 0, 1));
    assert_eq!(DUVec2::y_axis(), DUVec2::new(0, 1));
    assert_eq!(DIVec4::z_axis(), divec4(0, 0, 1, 0));
    assert_eq!(UVec2::x_axis(), uvec2(1, 0));
    assert_eq!(BVec3::all_true(), bvec3(true, true, true));
    assert_eq!(BVec4::all_false(), BVec4::new(false, false, false, false));
    assert_eq!(BVec2::y_axis(), bvec2(false, true));
}

#[test]
fn extend_and_truncate() {
    assert_eq!(ivec2(1, 2).extend(3), ivec3(1, 2, 3));
    assert_eq!(ivec3(1, 2, 3).extend(4).truncate(), ivec3(1, 2, 3));
    assert_eq!(ivec2(7, 8).truncate(), 7);
    assert_eq!(uvec4(1, 2, 3, 4).truncate().truncate(), uvec2(1, 2));
    assert_eq!(duvec2(5, 6).extend(7).extend(8), duvec4(5, 6, 7, 8));
    assert_eq!(divec3(-1, -2, -3).truncate(), divec2(-1, -2));
    assert_eq!(bvec2(true, false).extend(true).extend(false), bvec4(true, false, true, false));
    assert_eq!(bvec4(true, false, true, false).truncate(), bvec3(true, false, true));
    assert!(bvec2(true, false).truncate());
}

#[test]
fn boolean_operations() {
    let a = bvec3(true, true, false);
    let b = bvec3(true, false, false);
    assert_eq!(a | b, bvec3(true, true, false));
    assert_eq!(a & b, bvec3(true, false, false));
    assert_eq!(a ^ b, bvec3(false, true, false));
    assert_eq!(!a, bvec3(false, false, true));
    let mut c = bvec2(false, true);
    c |= bvec2(true, false);
    assert_eq!(c, bvec2(true, true));
    c &= bvec2(false, true);
    assert_eq!(c, bvec2(false, true));
    c ^= bvec2(true, true);
    assert_eq!(c, bvec2(true, false));
    let mut d = BVec4::all_true();
    d ^= BVec4::x_axis();
    assert_eq!(d, bvec4(false, true, true, true));
}

#[test]
fn conversions() {
    assert_eq!(IVec3::from((1, 2, 3)), ivec3(1, 2, 3));
    assert_eq!(IVec2::from([4, 5]), ivec2(4, 5));
    let t: (i32, i32, i32, i32) = ivec4(1, 2, 3, 4).into();
    assert_eq!(t, (1, 2, 3, 4));
    let a: [u32; 3] = uvec3(7, 8, 9).into();
    assert_eq!(a, [7, 8, 9]);
    assert_eq!(DIVec2::from(ivec2(-1, i32::MAX)), divec2(-1, i32::MAX as i64));
    assert_eq!(DUVec4::from(uvec4(1, 2, 3, u32::MAX)), duvec4(1, 2, 3, u32::MAX as u64));
    assert_eq!(DIVec3::from(ivec3(i32::MIN, 0, 1)), divec3(i32::MIN as i64, 0, 1));
    assert_eq!(DUVec3::from([1u64, 2, 3]), duvec3(1, 2, 3));
    assert_eq!(BVec3::from((true, false, true)), bvec3(true, false, true));
    let b: [bool; 2] = bvec2(false, true).into();
    assert_eq!(b, [false, true]);
    assert_eq!(UVec2::from((3, 4)), uvec2(3, 4));
    assert_eq!(IVec4::from([1, 2, 3, 4]), ivec4(1, 2, 3, 4));
}

#[test]
fn derived_ordering_is_lexicographic() {
    assert!(ivec2(1, 9) < ivec2(2, 0));
    assert!(uvec3(1, 2, 3) < uvec3(1, 2, 4));
    assert!(divec2(0, 0) > divec2(-1, 5));
}
