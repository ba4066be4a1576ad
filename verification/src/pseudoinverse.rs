use vstd::prelude::*;

use crate::mat::Mat;
use crate::mat::SvdFactors;
use crate::mat::adjoint_of;
use crate::mat::diagonal_of;
use crate::mat::product_of;
use crate::mat::svd_factors;
use crate::precision::HasPrecision;
use crate::precision::default_epsilon_of;

verus! {

/// Why a pseudoinverse could not be produced.
#[derive(Clone, Copy, Debug, PartialEq, Eq)]
pub enum PinvError {
    /// The input matrix has zero rows or zero columns.
    InvalidInput,
    /// The singular value decomposition did not converge within its
    /// iteration limit.
    DecompositionFailure,
}

/// How many iterations the singular value decomposition may spend before
/// its failure to converge is reported as `DecompositionFailure`.
pub const SVD_ITERATION_LIMIT: usize = 10000;

/// Relies on simba's `ComplexField::abs`: the absolute value of a real
/// scalar.
#[verifier::external_body]
fn abs_of<T: nalgebra::RealField>(x: &T) -> T {
    x.clone().abs()
}

/// Relies on nalgebra's `partial_le`: whether the two scalars are comparable
/// and the first is at most the second.
#[verifier::external_body]
fn is_at_most<T: nalgebra::RealField>(a: &T, b: &T) -> bool {
    nalgebra::partial_le(a, b)
}

/// Relies on num_traits' `Zero::zero`: the additive identity of the type.
#[verifier::external_body]
fn zero_of<T: num_traits::Zero>() -> T {
    T::zero()
}

/// Relies on simba's `ComplexField::recip`: the reciprocal 1/x of a scalar.
#[verifier::external_body]
fn recip_of<T: nalgebra::RealField>(x: &T) -> T {
    x.clone().recip()
}

/// The thresholded reciprocal of one singular value: zero when its magnitude
/// is at most `eps`, and its reciprocal otherwise. Mapping the numerically
/// insignificant values to zero instead of inverting them is what keeps the
/// pseudoinverse well defined for singular and ill-conditioned matrices.
fn recip_or_zero<T: nalgebra::RealField + num_traits::Zero>(x: &T, eps: &T) -> T {
    let magnitude = abs_of(x);
    if is_at_most(&magnitude, eps) {
        zero_of()
    } else {
        recip_of(x)
    }
}

/// Applies the threshold rule to every singular value, keeping the order:
/// the result holds one thresholded reciprocal per input value.
fn thresholded_reciprocals<T: nalgebra::RealField + num_traits::Zero>(sigma: &Vec<T>, eps: &T) -> (r:
    Vec<T>)
    ensures
        r@.len() == sigma@.len(),
{
    let mut out: Vec<T> = Vec::new();
    let mut i: usize = 0;
    while i < sigma.len()
        invariant
            i <= sigma@.len(),
            out@.len() == i,
        decreases sigma@.len() - i,
    {
        let v = recip_or_zero(&sigma[i], eps);
        out.push(v);
        i = i + 1;
    }
    out
}

/// Reassembles the pseudoinverse from the decomposition factors:
/// adjoint(Vᵀ) · diag(σ⁺) · adjoint(U), an n×m matrix when the factors came
/// from an m×n matrix. The order of the singular values does not matter,
/// since `U`, σ⁺ and `Vᵀ` stay permuted consistently together.
fn reconstruct<T: nalgebra::RealField + num_traits::Zero>(factors: &SvdFactors<T>, sigma_inv: &Vec<
    T,
>) -> (r: Mat<T>)
    requires
        factors.u.spec_ncols() == sigma_inv@.len(),
        factors.v_t.spec_nrows() == sigma_inv@.len(),
    ensures
        r.spec_nrows() == factors.v_t.spec_ncols(),
        r.spec_ncols() == factors.u.spec_nrows(),
{
    let v = adjoint_of(&factors.v_t);
    let sigma_mat = diagonal_of(sigma_inv);
    let u_adj = adjoint_of(&factors.u);
    let left = product_of(&v, &sigma_mat);
    product_of(&left, &u_adj)
}

/// The pseudoinverse computation proper, with the zero-cutoff threshold
/// passed in: validates the shape, decomposes, maps each singular value to
/// its thresholded reciprocal and reassembles. For an m×n input the result
/// is n×m.
fn pinv_with_threshold<T: nalgebra::RealField + num_traits::Zero>(mat: Mat<T>, eps: T) -> (r:
    Result<Mat<T>, PinvError>)
    ensures
        r == Err::<Mat<T>, PinvError>(PinvError::InvalidInput) <==> (mat.spec_nrows() == 0
            || mat.spec_ncols() == 0),
        r is Ok ==> r->Ok_0.spec_nrows() == mat.spec_ncols() && r->Ok_0.spec_ncols()
            == mat.spec_nrows(),
{
    if mat.nrows() == 0 || mat.ncols() == 0 {
        return Err(PinvError::InvalidInput);
    }
    match svd_factors(mat, default_epsilon_of::<T>(), SVD_ITERATION_LIMIT) {
        None => Err(PinvError::DecompositionFailure),
        Some(factors) => {
            let sigma_inv = thresholded_reciprocals(&factors.sigma, &eps);
            Ok(reconstruct(&factors, &sigma_inv))
        },
    }
}

/// Computes the Moore-Penrose pseudoinverse of a real matrix using its
/// singular value decomposition.
///
/// The matrix is consumed. Singular values whose magnitude is at most the
/// scalar type's machine epsilon are treated as numerically zero; the
/// others are inverted; and the pseudoinverse is reassembled as
/// adjoint(Vᵀ) · diag(σ⁺) · adjoint(U). For an m×n input the result is
/// n×m. A matrix with zero rows or zero columns is rejected as
/// `InvalidInput` before any decomposition is attempted, and a
/// decomposition that does not converge within `SVD_ITERATION_LIMIT`
/// iterations is reported as `DecompositionFailure`.
pub fn pinv<T: nalgebra::RealField + num_traits::Zero>(mat: Mat<T>) -> (r: Result<
    Mat<T>,
    PinvError,
>)
    ensures
        r == Err::<Mat<T>, PinvError>(PinvError::InvalidInput) <==> (mat.spec_nrows() == 0
            || mat.spec_ncols() == 0),
        r is Ok ==> r->Ok_0.spec_nrows() == mat.spec_ncols() && r->Ok_0.spec_ncols()
            == mat.spec_nrows(),
{
    let eps = default_epsilon_of::<T>();
    pinv_with_threshold(mat, eps)
}

/// The same pseudoinverse computation as `pinv`, for scalar types that
/// declare their own precision threshold through `HasPrecision` instead of
/// relying on the default epsilon of the real field.
pub fn pinv_with_precision<T: nalgebra::RealField + HasPrecision + num_traits::Zero>(mat: Mat<
    T,
>) -> (r: Result<Mat<T>, PinvError>)
    ensures
        r == Err::<Mat<T>, PinvError>(PinvError::InvalidInput) <==> (mat.spec_nrows() == 0
            || mat.spec_ncols() == 0),
        r is Ok ==> r->Ok_0.spec_nrows() == mat.spec_ncols() && r->Ok_0.spec_ncols()
            == mat.spec_nrows(),
{
    let eps = T::epsilon();
    pinv_with_threshold(mat, eps)
}

} // verus!
