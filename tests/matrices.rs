use modring::{Matrix, Modular, Vector};

fn m7(x: u32) -> Modular<7> {
    Modular::<7>::from([x])
}

fn vec7(xs: &[u32]) -> Vector<Modular<7>, 3> {
    Vector::<Modular<7>, 3>::from_vec(xs.iter().map(|&x| m7(x)).collect()).unwrap()
}

#[test]
fn vector_from_vec_checks_length() {
    assert!(Vector::<Modular<7>, 3>::from_vec(vec![m7(1), m7(2)]).is_none());
    assert!(Vector::<Modular<7>, 3>::from_vec(vec![m7(1), m7(2), m7(3)]).is_some());
}

#[test]
fn vector_add_is_componentwise() {
    let v = vec7(&[1, 5, 6]);
    let w = vec7(&[2, 4, 6]);
    assert_eq!(v.add(&w).to_vec(), vec![m7(3), m7(2), m7(5)]);
    assert_eq!(v.sub(&w).to_vec(), vec![m7(6), m7(1), m7(0)]);
}

#[test]
fn vector_zero_and_inverse() {
    let v = vec7(&[1, 0, 6]);
    let zero = Vector::<Modular<7>, 3>::zero();
    assert_eq!(zero.to_vec(), vec![m7(0), m7(0), m7(0)]);
    assert_eq!(v.add(&zero).to_vec(), v.to_vec());
    assert_eq!(v.neg().to_vec(), vec![m7(6), m7(0), m7(1)]);
    assert_eq!(v.add(&v.neg()).to_vec(), zero.to_vec());
}

#[test]
fn vector_get() {
    let v = vec7(&[1, 5, 6]);
    assert_eq!(v.get(1), Some(m7(5)));
    assert_eq!(v.get(3), None);
}

#[test]
fn matrix_set_and_get() {
    let mut m = Matrix::<Modular<7>, 2, 3>::zero();
    assert_eq!(m.get(1, 2), Some(m7(0)));
    assert!(m.set(1, 2, m7(4)));
    assert_eq!(m.get(1, 2), Some(m7(4)));
    assert_eq!(m.get(0, 2), Some(m7(0)));
    assert!(!m.set(2, 0, m7(1)));
    assert!(!m.set(0, 3, m7(1)));
    assert_eq!(m.get(2, 0), None);
    assert_eq!(m.get(0, 3), None);
}

#[test]
fn matrix_vector_product() {
    let mut m = Matrix::<Modular<7>, 2, 3>::zero();
    let rows = [[1u32, 2, 3], [4, 5, 6]];
    for (r, row) in rows.iter().enumerate() {
        for (c, &x) in row.iter().enumerate() {
            assert!(m.set(r, c, m7(x)));
        }
    }
    let x = vec7(&[1, 1, 2]);
    // [1 + 2 + 6, 4 + 5 + 12] = [9, 21] = [2, 0] mod 7
    assert_eq!(m.mul_vec(&x).to_vec(), vec![m7(2), m7(0)]);
}

#[test]
fn zero_matrix_product_is_zero() {
    let m = Matrix::<Modular<7>, 2, 3>::zero();
    let x = vec7(&[3, 4, 5]);
    assert_eq!(m.mul_vec(&x).to_vec(), vec![m7(0), m7(0)]);
}

#[test]
fn vector_addition_commutes_and_associates() {
    let u = vec7(&[1, 5, 6]);
    let v = vec7(&[2, 4, 6]);
    let w = vec7(&[6, 6, 3]);
    assert_eq!(u.add(&v).to_vec(), v.add(&u).to_vec());
    assert_eq!(u.add(&v).add(&w).to_vec(), u.add(&v.add(&w)).to_vec());
    assert_eq!(u.add(&v).add(&w).to_vec(), vec![m7(2), m7(1), m7(1)]);
}
