//! Vectors and matrices over a ring, and the matrix-vector product.
use vstd::prelude::*;

use crate::ring::Ring;

verus! {

/// A vector of `DIM` ring elements. Vectors form an abelian group under
/// componentwise addition.
pub struct Vector<R: Ring, const DIM: usize> {
    elems: Vec<R>,
}

impl<R: Ring, const DIM: usize> View for Vector<R, DIM> {
    type V = Seq<R>;

    /// The components, in order.
    closed spec fn view(&self) -> Seq<R> {
        self.elems@
    }
}

/// `row[0] * x[0] + ... + row[n - 1] * x[n - 1]`, summed from the left and
/// starting at zero.
pub open spec fn dot<R: Ring>(row: Seq<R>, x: Seq<R>, n: nat) -> R
    decreases n,
{
    if n == 0 {
        R::zero_element()
    } else {
        dot(row, x, (n - 1) as nat).sum(row[n - 1].product(x[n - 1]))
    }
}

impl<R: Ring, const DIM: usize> Vector<R, DIM> {
    /// Exactly `DIM` components, each a well-formed ring element.
    #[verifier::type_invariant]
    pub open spec fn wf(self) -> bool {
        &&& self@.len() == DIM
        &&& forall|i: int| 0 <= i < DIM ==> (#[trigger] self@[i]).valid()
    }

    /// `DIM` zeros.
    pub open spec fn zeros() -> Seq<R> {
        Seq::new(DIM as nat, |i: int| R::zero_element())
    }

    /// The componentwise sum of the first `DIM` entries of `v` and `w`.
    pub open spec fn sum_of(v: Seq<R>, w: Seq<R>) -> Seq<R> {
        Seq::new(DIM as nat, |i: int| v[i].sum(w[i]))
    }

    /// The componentwise difference of the first `DIM` entries of `v` and `w`.
    pub open spec fn difference_of(v: Seq<R>, w: Seq<R>) -> Seq<R> {
        Seq::new(DIM as nat, |i: int| v[i].difference(w[i]))
    }

    /// The componentwise negation of the first `DIM` entries of `v`.
    pub open spec fn negation_of(v: Seq<R>) -> Seq<R> {
        Seq::new(DIM as nat, |i: int| v[i].negation())
    }

    /// Vectors form an abelian group under componentwise addition: it is
    /// associative and commutative, the zero vector is its identity, and the
    /// componentwise negation is an inverse.
    pub proof fn lemma_abelian_group(u: Self, v: Self, w: Self)
        requires
            u.wf(),
            v.wf(),
            w.wf(),
        ensures
            Self::sum_of(Self::sum_of(u@, v@), w@) == Self::sum_of(u@, Self::sum_of(v@, w@)),
            Self::sum_of(u@, v@) == Self::sum_of(v@, u@),
            Self::sum_of(u@, Self::zeros()) == u@,
            Self::sum_of(u@, Self::negation_of(u@)) == Self::zeros(),
    {
        assert forall|i: int| 0 <= i < DIM implies {
            &&& (#[trigger] u@[i]).sum(v@[i]).sum(w@[i]) == u@[i].sum(v@[i].sum(w@[i]))
            &&& u@[i].sum(v@[i]) == v@[i].sum(u@[i])
            &&& u@[i].sum(R::zero_element()) == u@[i]
            &&& u@[i].sum(u@[i].negation()) == R::zero_element()
        } by {
            R::lemma_additive_group(u@[i], v@[i], w@[i]);
        }
        assert(Self::sum_of(Self::sum_of(u@, v@), w@) =~= Self::sum_of(u@, Self::sum_of(v@, w@)));
        assert(Self::sum_of(u@, v@) =~= Self::sum_of(v@, u@));
        assert(Self::sum_of(u@, Self::zeros()) =~= u@);
        assert(Self::sum_of(u@, Self::negation_of(u@)) =~= Self::zeros());
    }

    /// The vector with the given components, or `None` where their number is
    /// not `DIM`.
    pub fn from_vec(v: Vec<R>) -> (r: Option<Self>)
        requires
            forall|i: int| 0 <= i < v@.len() ==> (#[trigger] v@[i]).valid(),
        ensures
            r is Some <==> v@.len() == DIM,
            r is Some ==> r->Some_0@ == v@,
    {
        if v.len() == DIM {
            Some(Vector { elems: v })
        } else {
            None
        }
    }

    /// The vector of zeros, the identity of addition.
    pub fn zero() -> (r: Self)
        requires
            R::admits_elements(),
        ensures
            r@ == Self::zeros(),
    {
        let mut elems: Vec<R> = Vec::new();
        let mut i: usize = 0;
        while i < DIM
            invariant
                i <= DIM,
                R::admits_elements(),
                elems@ == Seq::new(i as nat, |k: int| R::zero_element()),
                forall|k: int| 0 <= k < i ==> (#[trigger] elems@[k]).valid(),
            decreases DIM - i,
        {
            let z = R::ring_zero();
            elems.push(z);
            i = i + 1;
            assert(elems@ =~= Seq::new(i as nat, |k: int| R::zero_element()));
        }
        Vector { elems }
    }

    /// The component at `i`, or `None` past the end.
    pub fn get(&self, i: usize) -> (r: Option<R>)
        ensures
            r is Some <==> i < DIM,
            r is Some ==> r->Some_0 == self@[i as int],
    {
        proof {
            use_type_invariant(self);
        }
        if i < self.elems.len() {
            Some(self.elems[i])
        } else {
            None
        }
    }

    /// The components as a `Vec`.
    pub fn to_vec(&self) -> (r: Vec<R>)
        ensures
            r@ == self@,
    {
        let mut out: Vec<R> = Vec::new();
        let mut i: usize = 0;
        while i < self.elems.len()
            invariant
                i <= self.elems@.len(),
                out@ == self.elems@.subrange(0, i as int),
            decreases self.elems@.len() - i,
        {
            out.push(self.elems[i]);
            i = i + 1;
            assert(out@ =~= self.elems@.subrange(0, i as int));
        }
        assert(out@ =~= self.elems@);
        out
    }

    /// Componentwise sum: `(v + w)[i] = v[i] + w[i]`.
    pub fn add(&self, other: &Self) -> (r: Self)
        ensures
            r@ == Self::sum_of(self@, other@),
    {
        proof {
            use_type_invariant(self);
            use_type_invariant(other);
        }
        let mut elems: Vec<R> = Vec::new();
        let mut i: usize = 0;
        while i < DIM
            invariant
                i <= DIM,
                self.wf(),
                other.wf(),
                elems@ =~= Seq::new(i as nat, |k: int| self@[k].sum(other@[k])),
                forall|k: int| 0 <= k < i ==> (#[trigger] elems@[k]).valid(),
            decreases DIM - i,
        {
            let s = self.elems[i].ring_add(&other.elems[i]);
            elems.push(s);
            i = i + 1;
            assert(elems@ =~= Seq::new(i as nat, |k: int| self@[k].sum(other@[k])));
        }
        Vector { elems }
    }

    /// Componentwise negation, the inverse of addition.
    pub fn neg(&self) -> (r: Self)
        ensures
            r@ == Self::negation_of(self@),
    {
        proof {
            use_type_invariant(self);
        }
        let mut elems: Vec<R> = Vec::new();
        let mut i: usize = 0;
        while i < DIM
            invariant
                i <= DIM,
                self.wf(),
                elems@ =~= Seq::new(i as nat, |k: int| self@[k].negation()),
                forall|k: int| 0 <= k < i ==> (#[trigger] elems@[k]).valid(),
            decreases DIM - i,
        {
            let s = self.elems[i].ring_neg();
            elems.push(s);
            i = i + 1;
            assert(elems@ =~= Seq::new(i as nat, |k: int| self@[k].negation()));
        }
        Vector { elems }
    }

    /// Componentwise difference: `(v - w)[i] = v[i] - w[i]`.
    pub fn sub(&self, other: &Self) -> (r: Self)
        ensures
            r@ == Self::difference_of(self@, other@),
    {
        proof {
            use_type_invariant(self);
            use_type_invariant(other);
        }
        let mut elems: Vec<R> = Vec::new();
        let mut i: usize = 0;
        while i < DIM
            invariant
                i <= DIM,
                self.wf(),
                other.wf(),
                elems@ =~= Seq::new(i as nat, |k: int| self@[k].difference(other@[k])),
                forall|k: int| 0 <= k < i ==> (#[trigger] elems@[k]).valid(),
            decreases DIM - i,
        {
            let s = self.elems[i].ring_sub(&other.elems[i]);
            elems.push(s);
            i = i + 1;
            assert(elems@ =~= Seq::new(i as nat, |k: int| self@[k].difference(other@[k])));
        }
        Vector { elems }
    }
}

/// The row-major position of entry `(r, c)` lies inside a `rows x cols` grid.
proof fn lemma_index_in_grid(r: int, c: int, rows: int, cols: int)
    requires
        0 <= r < rows,
        0 <= c < cols,
    ensures
        0 <= r * cols,
        r * cols + c < rows * cols,
{
    assert(0 <= r * cols && r * cols + c < rows * cols) by (nonlinear_arith)
        requires
            0 <= r < rows,
            0 <= c < cols,
    ;
}

/// A `ROWS x COLS` matrix of ring elements, held row-major in one buffer.
pub struct Matrix<R: Ring, const ROWS: usize, const COLS: usize> {
    elems: Vec<R>,
}

impl<R: Ring, const ROWS: usize, const COLS: usize> View for Matrix<R, ROWS, COLS> {
    type V = Seq<R>;

    /// The entries, row after row.
    closed spec fn view(&self) -> Seq<R> {
        self.elems@
    }
}

impl<R: Ring, const ROWS: usize, const COLS: usize> Matrix<R, ROWS, COLS> {
    /// `ROWS * COLS` well-formed entries, over a ring that has elements.
    pub open spec fn wf(self) -> bool {
        &&& R::admits_elements()
        &&& ROWS * COLS <= usize::MAX
        &&& self@.len() == ROWS * COLS
        &&& forall|i: int| 0 <= i < ROWS * COLS ==> (#[trigger] self@[i]).valid()
    }

    /// The entry in row `r` and column `c`.
    pub open spec fn entry(self, r: int, c: int) -> R {
        self@[r * COLS + c]
    }

    /// Row `r`, as a sequence of `COLS` entries.
    pub open spec fn row(self, r: int) -> Seq<R> {
        Seq::new(COLS as nat, |c: int| self.entry(r, c))
    }

    /// The matrix of zeros.
    pub fn zero() -> (r: Self)
        requires
            R::admits_elements(),
            ROWS * COLS <= usize::MAX,
        ensures
            r.wf(),
            r@ == Seq::new((ROWS * COLS) as nat, |i: int| R::zero_element()),
    {
        let n: usize = ROWS * COLS;
        let mut elems: Vec<R> = Vec::new();
        let mut i: usize = 0;
        while i < n
            invariant
                i <= n,
                R::admits_elements(),
                elems@ == Seq::new(i as nat, |k: int| R::zero_element()),
                forall|k: int| 0 <= k < i ==> (#[trigger] elems@[k]).valid(),
            decreases n - i,
        {
            let z = R::ring_zero();
            elems.push(z);
            i = i + 1;
            assert(elems@ =~= Seq::new(i as nat, |k: int| R::zero_element()));
        }
        Matrix { elems }
    }

    /// The entry in row `row` and column `col`, or `None` outside the grid.
    pub fn get(&self, row: usize, col: usize) -> (r: Option<R>)
        requires
            self.wf(),
        ensures
            r is Some <==> row < ROWS && col < COLS,
            r is Some ==> r->Some_0 == self.entry(row as int, col as int),
    {
        if row < ROWS && col < COLS {
            proof {
                lemma_index_in_grid(row as int, col as int, ROWS as int, COLS as int);
            }
            Some(self.elems[row * COLS + col])
        } else {
            None
        }
    }

    /// Replaces the entry in row `row` and column `col` by `v`; returns
    /// `false`, and changes nothing, outside the grid.
    pub fn set(&mut self, row: usize, col: usize, v: R) -> (ok: bool)
        requires
            old(self).wf(),
            v.valid(),
        ensures
            final(self).wf(),
            ok == (row < ROWS && col < COLS),
            ok ==> final(self)@ == old(self)@.update(row * COLS + col, v),
            !ok ==> final(self)@ == old(self)@,
    {
        if row < ROWS && col < COLS {
            proof {
                lemma_index_in_grid(row as int, col as int, ROWS as int, COLS as int);
            }
            self.elems.set(row * COLS + col, v);
            true
        } else {
            false
        }
    }

    /// The product `M x`: entry `r` is the sum over `c` of `M[r][c] * x[c]`.
    pub fn mul_vec(&self, x: &Vector<R, COLS>) -> (r: Vector<R, ROWS>)
        requires
            self.wf(),
        ensures
            r@ == Seq::new(ROWS as nat, |i: int| dot(self.row(i), x@, COLS as nat)),
    {
        proof {
            use_type_invariant(x);
        }
        let mut out: Vec<R> = Vec::new();
        let mut i: usize = 0;
        while i < ROWS
            invariant
                i <= ROWS,
                self.wf(),
                x.wf(),
                out@ =~= Seq::new(i as nat, |k: int| dot(self.row(k), x@, COLS as nat)),
                forall|k: int| 0 <= k < i ==> (#[trigger] out@[k]).valid(),
            decreases ROWS - i,
        {
            let mut acc: R = R::ring_zero();
            let mut j: usize = 0;
            while j < COLS
                invariant
                    i < ROWS,
                    j <= COLS,
                    self.wf(),
                    x.wf(),
                    acc == dot(self.row(i as int), x@, j as nat),
                    acc.valid(),
                decreases COLS - j,
            {
                proof {
                    lemma_index_in_grid(i as int, j as int, ROWS as int, COLS as int);
                }
                let p = self.elems[i * COLS + j].ring_mul(&x.elems[j]);
                acc = acc.ring_add(&p);
                j = j + 1;
            }
            out.push(acc);
            i = i + 1;
            assert(out@ =~= Seq::new(i as nat, |k: int| dot(self.row(k), x@, COLS as nat)));
        }
        Vector { elems: out }
    }
}

} // verus!
