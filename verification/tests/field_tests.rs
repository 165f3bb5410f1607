use cairo_air::extension::QM31;
use cairo_air::field::{M31, P};

#[test]
fn test_base_field_ops() {
    assert_eq!(M31::new(P - 1).add(M31::new(2)).value, 1);
    assert_eq!(M31::new(5).sub(M31::new(7)).value, P - 2);
    assert_eq!(M31::new(0).neg().value, 0);
    assert_eq!(M31::new(1).neg().value, P - 1);
    // 2^16 * 2^16 = 2^32 = 2 modulo 2^31 - 1.
    assert_eq!(M31::new(1 << 16).mul(M31::new(1 << 16)).value, 2);
    assert_eq!(M31::new(3).pow(5).value, 243);
}

#[test]
fn test_base_field_inverse() {
    let x = M31::new(7);
    assert_eq!(x.mul(x.inverse()).value, 1);
    // The inverse of two used by the trit interpolation.
    assert_eq!(M31::new(2).inverse().value, 0x4000_0000);
}

#[test]
fn test_extension_field_ops() {
    let one = QM31::from_m31(M31::new(1));
    let x = QM31::from_parts(M31::new(3), M31::new(5), M31::new(7), M31::new(11));
    assert_eq!(x.mul(one), x);
    assert_eq!(x.sub(x), QM31::zero());
    assert_eq!(x.add(x.neg()), QM31::zero());
}

#[test]
fn test_extension_field_inverse() {
    let x = QM31::from_parts(M31::new(3), M31::new(5), M31::new(7), M31::new(11));
    let one = QM31::from_m31(M31::new(1));
    assert_eq!(x.mul(x.inverse()), one);
}
