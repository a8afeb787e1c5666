//! A small dimension-generic fixed-point vector, kept alongside the
//! specialized `Vec3` for callers that want vectors of other sizes.

use vstd::prelude::*;

use crate::fixed::fx_add;
use crate::fixed::fx_add_s;
use crate::fixed::fx_div;
use crate::fixed::fx_mul;
use crate::fixed::fx_mul_s;
use crate::fixed::fx_sqrt;
use crate::fixed::fx_sqrt_s;
use crate::fixed::fx_sub;
use crate::fixed::fx_sub_s;

verus! {

/// An `N`-component fixed-point vector; its model is the sequence of
/// raw components.
#[derive(Clone, Copy, PartialEq, Eq, Debug)]
pub struct EVector<const N: usize> {
    data: [i64; N],
}

impl<const N: usize> View for EVector<N> {
    type V = Seq<i64>;

    closed spec fn view(&self) -> Seq<i64> {
        self.data@
    }
}

/// The fixed-point dot product of two component sequences,
/// accumulated left to right.
pub open spec fn evec_dot_s(a: Seq<i64>, b: Seq<i64>) -> int
    decreases a.len(),
{
    if a.len() == 0 || b.len() == 0 {
        0
    } else {
        fx_add_s(
            evec_dot_s(a.drop_last(), b.drop_last()),
            fx_mul_s(a.last() as int, b.last() as int),
        )
    }
}

/// The component-wise fixed-point difference `a - b`.
pub open spec fn evec_sub_s(a: Seq<i64>, b: Seq<i64>) -> Seq<i64> {
    Seq::new(a.len(), |i: int| fx_sub_s(a[i] as int, b[i] as int) as i64)
}

impl<const N: usize> EVector<N> {
    pub fn new(data: [i64; N]) -> (r: Self)
        ensures
            r@ == data@,
    {
        Self { data }
    }

    /// The component-wise difference `other - self` is not exposed;
    /// this is `self - rhs`.
    pub fn sub(&self, rhs: &Self) -> (r: Self)
        ensures
            r@ == evec_sub_s(self@, rhs@),
    {
        let mut data = self.data;
        let mut i: usize = 0;
        while i < N
            invariant
                i <= N,
                data@.len() == N,
                forall|j: int| 0 <= j < i ==> data@[j] as int == fx_sub_s(self@[j] as int, rhs@[j] as int),
                forall|j: int| i <= j < N ==> data@[j] == self@[j],
            decreases N - i,
        {
            let d = fx_sub(self.data[i], rhs.data[i]);
            data[i] = d;
            i = i + 1;
        }
        proof {
            assert(data@ =~= evec_sub_s(self@, rhs@));
        }
        Self { data }
    }

    pub fn dot(&self, other: &Self) -> (r: i64)
        ensures
            r as int == evec_dot_s(self@, other@),
    {
        let mut acc: i64 = 0;
        let mut i: usize = 0;
        while i < N
            invariant
                i <= N,
                self@.len() == N,
                other@.len() == N,
                acc as int == evec_dot_s(self@.take(i as int), other@.take(i as int)),
            decreases N - i,
        {
            proof {
                assert(self@.take(i as int + 1).drop_last() =~= self@.take(i as int));
                assert(other@.take(i as int + 1).drop_last() =~= other@.take(i as int));
                assert(self@.take(i as int + 1).last() == self@[i as int]);
            }
            acc = fx_add(acc, fx_mul(self.data[i], other.data[i]));
            i = i + 1;
        }
        proof {
            assert(self@.take(N as int) =~= self@);
            assert(other@.take(N as int) =~= other@);
        }
        acc
    }

    pub fn sqr_magnitude(&self) -> (r: i64)
        ensures
            r as int == evec_dot_s(self@, self@),
    {
        self.dot(self)
    }

    pub fn sqr_distance(&self, p2: &Self) -> (r: i64)
        ensures
            r as int == evec_dot_s(evec_sub_s(p2@, self@), evec_sub_s(p2@, self@)),
    {
        let diff = p2.sub(self);
        diff.sqr_magnitude()
    }

    pub fn magnitude(&self) -> (r: i64)
        ensures
            r as int == fx_sqrt_s(evec_dot_s(self@, self@)),
    {
        fx_sqrt(self.sqr_magnitude())
    }

    pub fn distance(&self, other: &Self) -> (r: i64)
        ensures
            r as int == fx_sqrt_s(evec_dot_s(evec_sub_s(other@, self@), evec_sub_s(other@, self@))),
    {
        fx_sqrt(self.sqr_distance(other))
    }

    /// The vector scaled to unit length by a fixed-point division;
    /// a zero-length vector is left unchanged component-wise.
    pub fn get_normalized(&self) -> (r: Self)
        ensures
            r@.len() == N,
            forall|j: int|
                0 <= j < N ==> r@[j] as int == crate::fixed::fx_div_s(
                    self@[j] as int,
                    fx_sqrt_s(evec_dot_s(self@, self@)),
                ),
    {
        let mag = self.magnitude();
        let mut data = self.data;
        let mut i: usize = 0;
        while i < N
            invariant
                i <= N,
                data@.len() == N,
                mag as int == fx_sqrt_s(evec_dot_s(self@, self@)),
                forall|j: int|
                    0 <= j < i ==> data@[j] as int == crate::fixed::fx_div_s(
                        self@[j] as int,
                        mag as int,
                    ),
                forall|j: int| i <= j < N ==> data@[j] == self@[j],
            decreases N - i,
        {
            let d = fx_div(self.data[i], mag);
            data[i] = d;
            i = i + 1;
        }
        Self { data }
    }

    /// The three-component cross product; components past the third
    /// are zero.
    pub fn cross(&self, other: &Self) -> (r: Self)
        requires
            N >= 3,
        ensures
            r@.len() == N,
            r@[0] as int == fx_sub_s(
                fx_mul_s(self@[1] as int, other@[2] as int),
                fx_mul_s(self@[2] as int, other@[1] as int),
            ),
            r@[1] as int == fx_sub_s(
                fx_mul_s(self@[2] as int, other@[0] as int),
                fx_mul_s(self@[0] as int, other@[2] as int),
            ),
            r@[2] as int == fx_sub_s(
                fx_mul_s(self@[0] as int, other@[1] as int),
                fx_mul_s(self@[1] as int, other@[0] as int),
            ),
            forall|j: int| 3 <= j < N ==> r@[j] == 0,
    {
        let mut data: [i64; N] = [0; N];
        let c0 = fx_sub(fx_mul(self.data[1], other.data[2]), fx_mul(self.data[2], other.data[1]));
        let c1 = fx_sub(fx_mul(self.data[2], other.data[0]), fx_mul(self.data[0], other.data[2]));
        let c2 = fx_sub(fx_mul(self.data[0], other.data[1]), fx_mul(self.data[1], other.data[0]));
        data[0] = c0;
        data[1] = c1;
        data[2] = c2;
        Self { data }
    }
}

} // verus!
