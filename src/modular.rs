//! The ring Z/QZ, with elements held as integers in `[0, Q)`.
use vstd::prelude::*;
use vstd::arithmetic::div_mod::{
    lemma_add_mod_noop,
    lemma_add_mod_noop_right,
    lemma_mod_bound,
    lemma_mod_sub_multiples_vanish,
    lemma_mod_twice,
    lemma_mul_mod_noop_left,
    lemma_mul_mod_noop_right,
    lemma_small_mod,
    lemma_sub_mod_noop,
};

verus! {

/// Why a modular value could not be made.
#[derive(Clone, Copy, PartialEq, Eq, Debug, Structural)]
pub enum ModulusError {
    /// Reducing modulo zero is never valid.
    ZeroModulus,
}

/// An element of the ring Z/QZ for a modulus `Q` fixed by the type.
///
/// The element is held as its representative in `[0, Q)`. `Q = 0` admits no
/// element: every constructor rejects it.
#[derive(Clone, Copy, Eq, Debug)]
pub struct Modular<const Q: u32>(u32);

impl<const Q: u32> View for Modular<Q> {
    type V = nat;

    /// The representative of the element.
    closed spec fn view(&self) -> nat {
        self.0 as nat
    }
}

impl<const Q: u32> PartialEq for Modular<Q> {
    fn eq(&self, other: &Self) -> (r: bool) {
        self.0 == other.0
    }
}

impl<const Q: u32> vstd::std_specs::cmp::PartialEqSpecImpl for Modular<Q> {
    open spec fn obeys_eq_spec() -> bool {
        true
    }

    open spec fn eq_spec(&self, other: &Self) -> bool {
        self@ == other@
    }
}

impl<const Q: u32> Modular<Q> {
    /// The representative lies in `[0, Q)`.
    #[verifier::type_invariant]
    pub open spec fn wf(self) -> bool {
        self@ < Q as nat
    }

    /// The element of Z/QZ that the integer `x` stands for.
    pub closed spec fn reduced(x: int) -> Self {
        Modular((x % (Q as int)) as u32)
    }

    /// The sum: the reduction of the sum of the representatives.
    pub open spec fn spec_add(self, other: Self) -> Self {
        Self::reduced((self@ + other@) as int)
    }

    /// The difference, reduced into `[0, Q)` even where it is negative.
    pub open spec fn spec_sub(self, other: Self) -> Self {
        Self::reduced(self@ as int - other@ as int)
    }

    /// The product: the reduction of the product of the representatives.
    pub open spec fn spec_mul(self, other: Self) -> Self {
        Self::reduced((self@ * other@) as int)
    }

    /// The additive inverse: the reduction of minus the representative.
    pub open spec fn spec_neg(self) -> Self {
        Self::reduced(-(self@ as int))
    }

    /// What `reduced` means: the representative of `x` modulo `Q`.
    pub proof fn lemma_reduced(x: int)
        requires
            Q > 0,
        ensures
            Self::reduced(x)@ == x % (Q as int),
            Self::reduced(x).wf(),
    {
        lemma_mod_bound(x, Q as int);
    }

    /// Makes the element `x mod Q` from a coordinate array of length one.
    pub fn from(x: [u32; 1]) -> (r: Self)
        requires
            Q > 0,
        ensures
            r == Self::reduced(x[0] as int),
            r.wf(),
            r@ == x[0] as nat % (Q as nat),
    {
        Modular(x[0] % Q)
    }

    /// Makes the element `x mod Q`, or reports that `Q` is zero.
    pub fn from_value(x: u32) -> (r: Result<Self, ModulusError>)
        ensures
            Q == 0 <==> r is Err,
            r is Err ==> r == Err::<Self, ModulusError>(ModulusError::ZeroModulus),
            r is Ok ==> r->Ok_0 == Self::reduced(x as int) && r->Ok_0.wf()
                && r->Ok_0@ == x as nat % (Q as nat),
    {
        if Q == 0 {
            Err(ModulusError::ZeroModulus)
        } else {
            Ok(Self::from([x]))
        }
    }

    /// The representative of the element, in `[0, Q)`.
    pub fn value(&self) -> (r: u32)
        ensures
            r as nat == self@,
            r < Q,
    {
        proof {
            use_type_invariant(self);
        }
        self.0
    }

    /// The additive identity.
    pub fn zero() -> (r: Self)
        requires
            Q > 0,
        ensures
            r == Self::reduced(0),
            r.wf(),
            r@ == 0,
    {
        Modular(0)
    }

    /// Whether the element is the additive identity.
    pub fn is_zero(&self) -> (r: bool)
        ensures
            r == (self@ == 0),
    {
        self.0 == 0
    }

    /// The multiplicative identity; for `Q = 1` it is zero.
    pub fn one() -> (r: Self)
        requires
            Q > 0,
        ensures
            r == Self::reduced(1),
            r.wf(),
            r@ == 1nat % (Q as nat),
    {
        Modular(1 % Q)
    }
}

impl<const Q: u32> core::ops::Add for Modular<Q> {
    type Output = Modular<Q>;

    /// Adds in `u32` when `2Q` fits in it, and in `u64` otherwise.
    fn add(self, other: Self) -> (r: Self) {
        proof {
            use_type_invariant(self);
            use_type_invariant(other);
        }
        if Q <= u32::MAX / 2 {
            let s: u32 = self.0 + other.0;
            if s >= Q {
                proof {
                    lemma_small_mod((s - Q) as nat, Q as nat);
                    lemma_mod_sub_multiples_vanish(s as int, Q as int);
                }
                Modular(s - Q)
            } else {
                proof {
                    lemma_small_mod(s as nat, Q as nat);
                }
                Modular(s)
            }
        } else {
            let s: u64 = self.0 as u64 + other.0 as u64;
            proof {
                lemma_mod_bound(s as int, Q as int);
            }
            Modular((s % (Q as u64)) as u32)
        }
    }
}

impl<const Q: u32> vstd::std_specs::ops::AddSpecImpl for Modular<Q> {
    open spec fn obeys_add_spec() -> bool {
        true
    }

    open spec fn add_req(self, other: Self) -> bool {
        true
    }

    open spec fn add_spec(self, other: Self) -> Self {
        self.spec_add(other)
    }
}

impl<const Q: u32> core::ops::AddAssign for Modular<Q> {
    fn add_assign(&mut self, other: Self)
        ensures
            *final(self) == old(self).spec_add(other),
    {
        *self = *self + other;
    }
}

impl<const Q: u32> core::ops::Neg for Modular<Q> {
    type Output = Modular<Q>;

    /// `Q - a`, reduced, so that zero stays zero.
    fn neg(self) -> (r: Self) {
        proof {
            use_type_invariant(self);
            lemma_mod_sub_multiples_vanish(Q as int - self@ as int, Q as int);
        }
        Self::from([Q - self.0])
    }
}

impl<const Q: u32> vstd::std_specs::ops::NegSpecImpl for Modular<Q> {
    open spec fn obeys_neg_spec() -> bool {
        true
    }

    open spec fn neg_req(self) -> bool {
        true
    }

    open spec fn neg_spec(self) -> Self {
        self.spec_neg()
    }
}

impl<const Q: u32> core::ops::Sub for Modular<Q> {
    type Output = Modular<Q>;

    /// `a - b` is `a + (-b)`.
    fn sub(self, other: Self) -> (r: Self) {
        proof {
            use_type_invariant(self);
            use_type_invariant(other);
            lemma_add_mod_noop_right(self@ as int, -(other@ as int), Q as int);
        }
        self + core::ops::Neg::neg(other)
    }
}

impl<const Q: u32> vstd::std_specs::ops::SubSpecImpl for Modular<Q> {
    open spec fn obeys_sub_spec() -> bool {
        true
    }

    open spec fn sub_req(self, other: Self) -> bool {
        true
    }

    open spec fn sub_spec(self, other: Self) -> Self {
        self.spec_sub(other)
    }
}

impl<const Q: u32> core::ops::Mul for Modular<Q> {
    type Output = Modular<Q>;

    /// Always multiplies in `u64`: the product of two representatives
    /// reaches nearly `Q * Q`.
    fn mul(self, other: Self) -> (r: Self) {
        proof {
            use_type_invariant(self);
            use_type_invariant(other);
        }
        let x: u64 = self.0 as u64;
        let y: u64 = other.0 as u64;
        assert(x * y <= u32::MAX as u64 * u32::MAX as u64) by (nonlinear_arith)
            requires
                x <= u32::MAX,
                y <= u32::MAX,
        ;
        let p: u64 = x * y;
        proof {
            lemma_mod_bound(p as int, Q as int);
        }
        Modular((p % (Q as u64)) as u32)
    }
}

impl<const Q: u32> vstd::std_specs::ops::MulSpecImpl for Modular<Q> {
    open spec fn obeys_mul_spec() -> bool {
        true
    }

    open spec fn mul_req(self, other: Self) -> bool {
        true
    }

    open spec fn mul_spec(self, other: Self) -> Self {
        self.spec_mul(other)
    }
}

impl<const Q: u32> core::ops::SubAssign for Modular<Q> {
    fn sub_assign(&mut self, other: Self)
        ensures
            *final(self) == old(self).spec_sub(other),
    {
        *self = *self - other;
    }
}

impl<const Q: u32> core::ops::MulAssign for Modular<Q> {
    fn mul_assign(&mut self, other: Self)
        ensures
            *final(self) == old(self).spec_mul(other),
    {
        *self = *self * other;
    }
}

/// Laws of the ring Z/QZ, stated over the values that the operators return.
impl<const Q: u32> Modular<Q> {
    /// Adding the reductions of two integers gives the reduction of their sum
    /// taken modulo `Q`.
    pub proof fn lemma_add_reduced(x: int, y: int)
        requires
            Q > 0,
        ensures
            Self::reduced(x).spec_add(Self::reduced(y)) == Self::reduced((x + y) % (Q as int)),
            Self::reduced(x).spec_add(Self::reduced(y)) == Self::reduced(x + y),
    {
        let q = Q as int;
        lemma_mod_bound(x, q);
        lemma_mod_bound(y, q);
        lemma_add_mod_noop(x, y, q);
        lemma_mod_twice(x + y, q);
    }

    /// Subtracting the reductions of two integers gives the reduction of their
    /// difference taken modulo `Q`.
    pub proof fn lemma_sub_reduced(x: int, y: int)
        requires
            Q > 0,
        ensures
            Self::reduced(x).spec_sub(Self::reduced(y)) == Self::reduced((x - y) % (Q as int)),
            Self::reduced(x).spec_sub(Self::reduced(y)) == Self::reduced(x - y),
    {
        let q = Q as int;
        lemma_mod_bound(x, q);
        lemma_mod_bound(y, q);
        lemma_sub_mod_noop(x, y, q);
        lemma_mod_twice(x - y, q);
    }

    /// Multiplying the reductions of two integers gives the reduction of their
    /// product taken modulo `Q`.
    pub proof fn lemma_mul_reduced(x: int, y: int)
        requires
            Q > 0,
        ensures
            Self::reduced(x).spec_mul(Self::reduced(y)) == Self::reduced((x * y) % (Q as int)),
            Self::reduced(x).spec_mul(Self::reduced(y)) == Self::reduced(x * y),
    {
        let q = Q as int;
        lemma_mod_bound(x, q);
        lemma_mod_bound(y, q);
        lemma_mul_mod_noop_left(x, y, q);
        lemma_mul_mod_noop_right(x % q, y, q);
        lemma_mod_twice(x * y, q);
    }

    /// Reducing the representative of an element gives the element back, and
    /// reducing twice is reducing once.
    pub proof fn lemma_reduce_idempotent(a: Self, x: int)
        requires
            a.wf(),
        ensures
            Self::reduced(a@ as int) == a,
            Self::reduced(x % (Q as int)) == Self::reduced(x),
    {
        lemma_small_mod(a@, Q as nat);
        lemma_mod_twice(x, Q as int);
    }

    /// Zero is an additive identity, one a multiplicative identity, and `-a`
    /// an additive inverse of `a`.
    pub proof fn lemma_identities(a: Self)
        requires
            a.wf(),
        ensures
            a.spec_add(Self::reduced(0)) == a,
            Self::reduced(0).spec_add(a) == a,
            a.spec_mul(Self::reduced(1)) == a,
            Self::reduced(1).spec_mul(a) == a,
            a.spec_add(a.spec_neg()) == Self::reduced(0),
            a.spec_sub(a) == Self::reduced(0),
    {
        let q = Q as int;
        Self::lemma_reduce_idempotent(a, 0);
        lemma_small_mod(0, Q as nat);
        let one = Self::reduced(1);
        if Q == 1 {
            assert(1int % q == 0);
            assert(a@ == 0);
            assert(one@ == 0);
            assert(a@ * one@ == a@ && one@ * a@ == a@);
        } else {
            lemma_small_mod(1, Q as nat);
            assert(one@ == 1);
            assert(a@ * one@ == a@ && one@ * a@ == a@);
        }
        lemma_add_mod_noop_right(a@ as int, -(a@ as int), q);
    }

    /// Addition is associative and commutative.
    pub proof fn lemma_add_assoc_comm(a: Self, b: Self, c: Self)
        requires
            a.wf(),
            b.wf(),
            c.wf(),
        ensures
            a.spec_add(b).spec_add(c) == a.spec_add(b.spec_add(c)),
            a.spec_add(b) == b.spec_add(a),
    {
        let q = Q as int;
        let (x, y, z) = (a@ as int, b@ as int, c@ as int);
        lemma_mod_bound(x + y, q);
        lemma_mod_bound(y + z, q);
        lemma_add_mod_noop(x + y, z, q);
        lemma_add_mod_noop(x, y + z, q);
        lemma_small_mod(a@, Q as nat);
        lemma_small_mod(c@, Q as nat);
    }

    /// Multiplication is associative and commutative.
    pub proof fn lemma_mul_assoc_comm(a: Self, b: Self, c: Self)
        requires
            a.wf(),
            b.wf(),
            c.wf(),
        ensures
            a.spec_mul(b).spec_mul(c) == a.spec_mul(b.spec_mul(c)),
            a.spec_mul(b) == b.spec_mul(a),
    {
        let q = Q as int;
        let (x, y, z) = (a@ as int, b@ as int, c@ as int);
        lemma_mod_bound(x * y, q);
        lemma_mod_bound(y * z, q);
        lemma_mul_mod_noop_left(x * y, z, q);
        lemma_mul_mod_noop_right(x, y * z, q);
        assert((x * y) * z == x * (y * z)) by (nonlinear_arith);
        assert(x * y == y * x) by (nonlinear_arith);
    }

    /// Multiplication distributes over addition, on either side.
    pub proof fn lemma_distributive(a: Self, b: Self, c: Self)
        requires
            a.wf(),
            b.wf(),
            c.wf(),
        ensures
            a.spec_mul(b.spec_add(c)) == a.spec_mul(b).spec_add(a.spec_mul(c)),
            b.spec_add(c).spec_mul(a) == b.spec_mul(a).spec_add(c.spec_mul(a)),
    {
        let q = Q as int;
        let (x, y, z) = (a@ as int, b@ as int, c@ as int);
        lemma_mod_bound(y + z, q);
        lemma_mod_bound(x * y, q);
        lemma_mod_bound(x * z, q);
        lemma_mul_mod_noop_right(x, y + z, q);
        lemma_mul_mod_noop_left(y + z, x, q);
        lemma_add_mod_noop(x * y, x * z, q);
        assert(x * (y + z) == x * y + x * z) by (nonlinear_arith);
        assert((y + z) * x == x * y + x * z) by (nonlinear_arith);
        assert(y * x == x * y && z * x == x * z) by (nonlinear_arith);
    }

    /// With `Q = 1` every element is zero, and so is every sum, difference,
    /// product and negation.
    pub proof fn lemma_degenerate(a: Self, b: Self)
        requires
            Q == 1,
            a.wf(),
            b.wf(),
        ensures
            a@ == 0,
            a.spec_add(b)@ == 0,
            a.spec_sub(b)@ == 0,
            a.spec_mul(b)@ == 0,
            a.spec_neg()@ == 0,
    {
        Self::lemma_reduced(a@ + b@ as int);
        Self::lemma_reduced(a@ as int - b@ as int);
        Self::lemma_reduced((a@ * b@) as int);
        Self::lemma_reduced(-(a@ as int));
    }
}

} // verus!
