//! A strided view into a slice: element `i` of the view is element
//! `index + i * factor` of the slice. Splitting a view into its even and odd
//! positions is the decimation step of a radix-2 transform.
use vstd::prelude::*;

verus! {

#[derive(Debug, Clone)]
pub struct SplatAccessor<'a, B> {
    factor: usize,
    index: usize,
    inner: &'a [B],
}

impl<'a, B> SplatAccessor<'a, B> {
    /// The elements the view shows, in order.
    pub closed spec fn view(&self) -> Seq<B> {
        Seq::new(
            (self.inner@.len() / (self.factor as nat)) as nat,
            |i: int| self.inner@[self.index + i * self.factor],
        )
    }

    /// The distance, in the slice, between neighbouring elements of the view.
    pub closed spec fn spec_factor(&self) -> nat {
        self.factor as nat
    }

    pub closed spec fn wf(&self) -> bool {
        0 < self.factor && self.index < self.factor
    }

    /// A view of every element of `inner`.
    pub fn new(inner: &'a [B]) -> (r: Self)
        ensures
            r.wf(),
            r.view() == inner@,
            r.spec_factor() == 1,
    {
        let r = SplatAccessor { factor: 1, index: 0, inner };
        assert(r.view() =~= inner@);
        r
    }

    /// Splits the view into the elements at its even positions and those at
    /// its odd positions; each half has `len / 2` elements.
    pub fn splat(&self) -> (r: (Self, Self))
        requires
            self.wf(),
            self.spec_factor() <= usize::MAX / 2,
        ensures
            r.0.wf(),
            r.1.wf(),
            r.0.spec_factor() == 2 * self.spec_factor(),
            r.1.spec_factor() == 2 * self.spec_factor(),
            r.0.view() == Seq::new(self.view().len() / 2, |i: int| self.view()[2 * i]),
            r.1.view() == Seq::new(self.view().len() / 2, |i: int| self.view()[2 * i + 1]),
    {
        let left = SplatAccessor { factor: self.factor * 2, index: self.index, inner: self.inner };
        let right = SplatAccessor {
            factor: self.factor * 2,
            index: self.index + self.factor,
            inner: self.inner,
        };
        proof {
            let f = self.factor as int;
            let l = self.inner@.len() as int;
            vstd::arithmetic::div_mod::lemma_div_denominator(l, f, 2);
            assert(l / (f * 2) == l / (2 * f)) by (nonlinear_arith);
            assert forall|i: int| 0 <= i < self.view().len() / 2 implies #[trigger] left.view()[i]
                == self.view()[2 * i] by {
                assert(i * (f * 2) == (2 * i) * f) by (nonlinear_arith);
            }
            assert forall|i: int| 0 <= i < self.view().len() / 2 implies #[trigger] right.view()[i]
                == self.view()[2 * i + 1] by {
                assert(f + i * (f * 2) == (2 * i + 1) * f) by (nonlinear_arith);
            }
            assert(left.view() =~= Seq::new(self.view().len() / 2, |i: int| self.view()[2 * i]));
            assert(right.view() =~= Seq::new(
                self.view().len() / 2,
                |i: int| self.view()[2 * i + 1],
            ));
        }
        (left, right)
    }

    /// Every position of the view lies inside the slice.
    proof fn lemma_in_bounds(&self, i: int)
        requires
            self.wf(),
            0 <= i < self.view().len(),
        ensures
            0 <= self.index + i * self.factor < self.inner@.len(),
    {
        let f = self.factor as int;
        let l = self.inner@.len() as int;
        assert(i < l / f);
        assert(i + 1 <= l / f);
        vstd::arithmetic::div_mod::lemma_fundamental_div_mod(l, f);
        assert((i + 1) * f <= (l / f) * f) by (nonlinear_arith)
            requires
                i + 1 <= l / f,
                f > 0,
        ;
        assert(0 <= i * f) by (nonlinear_arith)
            requires
                0 <= i,
                f > 0,
        ;
        assert((i + 1) * f == i * f + f) by (nonlinear_arith);
    }

    /// Number of elements in the view.
    pub fn len(&self) -> (r: usize)
        requires
            self.wf(),
        ensures
            r == self.view().len(),
    {
        self.inner.len() / self.factor
    }

    /// Element `i` of the view.
    pub fn get(&self, i: usize) -> (r: &B)
        requires
            self.wf(),
            i < self.view().len(),
        ensures
            *r == self.view()[i as int],
    {
        let n = self.inner.len();
        proof {
            self.lemma_in_bounds(i as int);
            assert(0 <= i * self.factor <= self.index + i * self.factor < n);
        }
        &self.inner[i * self.factor + self.index]
    }
}

impl<'a, B> core::ops::Index<usize> for SplatAccessor<'a, B> {
    type Output = B;

    fn index(&self, i: usize) -> (r: &B)
        ensures
            *r == self.view()[i as int],
    {
        self.get(i)
    }
}

impl<'a, B> vstd::std_specs::core::IndexSpecImpl<usize> for SplatAccessor<'a, B> {
    open spec fn index_req(&self, i: &usize) -> bool {
        self.wf() && (*i as int) < self.view().len()
    }
}

} // verus!
