use modring::{FinRankCRing, Modular, ModulusError, Ring};

#[test]
fn test_add() {
    let x = Modular::<13>::from([5]);
    let mut y = Modular::<13>::from([9]);
    let x_plus_x = Modular::<13>::from([10]);
    let x_plus_y = Modular::<13>::from([1]);
    y += x;
    assert_eq!(x + x, x_plus_x);
    assert_eq!(y, x_plus_y);
}

#[test]
fn test_add_zero() {
    let x = Modular::<27>::from([5]);
    let y = Modular::<27>::from([0]);
    assert_eq!(x + y, x);
    assert_eq!(y + x, x);
}

#[test]
fn test_sub_and_neg() {
    let x = Modular::<31>::from([5]);
    let y = Modular::<31>::from([6]);
    let z = Modular::<31>::from([1]);
    let x_minus_y = Modular::<31>::from([31 - 1]);
    assert_eq!(x - y, x_minus_y);
    assert_eq!(x - y, -z);
}

#[test]
fn test_mul() {
    let x = Modular::<37>::from([13]);
    let y = Modular::<37>::from([5]);
    let z = Modular::<37>::from([28]);
    assert_eq!(x * y, z);
}

#[test]
fn from_reduces_modulo_q() {
    assert_eq!(Modular::<13>::from([40]).value(), 1);
    assert_eq!(Modular::<13>::from([13]).value(), 0);
    assert_eq!(Modular::<13>::from([12]).value(), 12);
    assert_eq!(Modular::<4_294_967_291>::from([u32::MAX]).value(), 4);
}

#[test]
fn from_value_round_trip() {
    for x in [0u32, 1, 12, 13, 14, 1000, u32::MAX] {
        let m = Modular::<13>::from_value(x).unwrap();
        assert_eq!(m.value(), x % 13);
        let again = Modular::<13>::from_value(m.value()).unwrap();
        assert_eq!(again, m);
    }
}

#[test]
fn from_value_rejects_zero_modulus() {
    assert_eq!(Modular::<0>::from_value(5), Err(ModulusError::ZeroModulus));
    assert_eq!(Modular::<0>::from_value(0), Err(ModulusError::ZeroModulus));
}

#[test]
fn operations_agree_with_integer_arithmetic() {
    for x in [0u32, 3, 12, 25, 100, 4_000_000_000] {
        for y in [0u32, 1, 7, 13, 99, 3_999_999_999] {
            let a = Modular::<13>::from([x]);
            let b = Modular::<13>::from([y]);
            let (xw, yw) = (x as u64, y as u64);
            assert_eq!((a + b).value() as u64, (xw + yw) % 13);
            assert_eq!((a * b).value() as u64, (xw * yw) % 13);
            let diff = ((xw as i64 - yw as i64).rem_euclid(13)) as u32;
            assert_eq!(a - b, Modular::<13>::from([diff]));
        }
    }
}

#[test]
fn identities_hold() {
    let zero = Modular::<27>::zero();
    let one = Modular::<27>::one();
    for x in 0u32..27 {
        let a = Modular::<27>::from([x]);
        assert_eq!(a + zero, a);
        assert_eq!(a * one, a);
        assert_eq!(a + (-a), zero);
        assert_eq!(a - a, zero);
    }
}

#[test]
fn ring_axioms_on_small_modulus() {
    let elems: Vec<Modular<6>> = (0u32..6).map(|x| Modular::<6>::from([x])).collect();
    for &a in &elems {
        for &b in &elems {
            assert_eq!(a + b, b + a);
            assert_eq!(a * b, b * a);
            for &c in &elems {
                assert_eq!((a + b) + c, a + (b + c));
                assert_eq!((a * b) * c, a * (b * c));
                assert_eq!(a * (b + c), a * b + a * c);
            }
        }
    }
}

#[test]
fn add_near_u32_max_does_not_wrap() {
    let a = Modular::<4_294_967_291>::from([4_294_967_290]);
    let b = Modular::<4_294_967_291>::from([4_294_967_280]);
    // (a + b) mod Q, computed in u64
    let expected = ((4_294_967_290u64 + 4_294_967_280u64) % 4_294_967_291u64) as u32;
    assert_eq!((a + b).value(), expected);
    assert_eq!((a + b).value(), 4_294_967_279);
    assert_eq!((a - b).value(), 10);
    assert_eq!((b - a).value(), 4_294_967_281);
    assert_eq!((a * a).value(), 1);
}

#[test]
fn add_at_narrow_boundary() {
    let a = Modular::<2_147_483_647>::from([2_147_483_646]);
    assert_eq!((a + a).value(), 2_147_483_645);
    let b = Modular::<2_147_483_648>::from([2_147_483_647]);
    assert_eq!((b + b).value(), 2_147_483_646);
}

#[test]
fn degenerate_modulus_collapses_to_zero() {
    let a = Modular::<1>::from([5]);
    let b = Modular::<1>::from([u32::MAX]);
    assert_eq!(a.value(), 0);
    assert!(a.is_zero());
    assert_eq!((a + b).value(), 0);
    assert_eq!((a - b).value(), 0);
    assert_eq!((a * b).value(), 0);
    assert_eq!((-a).value(), 0);
    assert_eq!(Modular::<1>::one(), Modular::<1>::zero());
}

#[test]
fn one_and_zero_values() {
    assert_eq!(Modular::<13>::one().value(), 1);
    assert_eq!(Modular::<13>::zero().value(), 0);
    assert!(Modular::<13>::zero().is_zero());
    assert!(!Modular::<13>::one().is_zero());
}

#[test]
fn negation_of_zero_is_zero() {
    let z = Modular::<31>::from([0]);
    assert_eq!(-z, z);
    assert_eq!((-Modular::<31>::from([1])).value(), 30);
}

#[test]
fn assign_operators() {
    let mut a = Modular::<37>::from([13]);
    a *= Modular::<37>::from([5]);
    assert_eq!(a.value(), 28);
    a -= Modular::<37>::from([30]);
    assert_eq!(a.value(), 35);
    a += Modular::<37>::from([4]);
    assert_eq!(a.value(), 2);
}

#[test]
fn ring_capabilities_of_modular() {
    let a = <Modular<13> as FinRankCRing<1>>::from_coords([20]);
    assert_eq!(a.value(), 7);
    let b = Modular::<13>::from([9]);
    assert_eq!(a.ring_add(&b).value(), 3);
    assert_eq!(a.ring_sub(&b).value(), 11);
    assert_eq!(a.ring_mul(&b).value(), 11);
    assert_eq!(a.ring_neg().value(), 6);
    assert_eq!(<Modular<13> as Ring>::ring_zero().value(), 0);
    assert_eq!(<Modular<13> as Ring>::ring_one().value(), 1);
}
