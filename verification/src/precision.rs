use vstd::prelude::*;

verus! {

/// The per-type machine precision used to decide which singular values are
/// numerically zero.
///
/// A type that implements this trait reports the smallest magnitude it can
/// meaningfully distinguish: a strictly positive constant of the type, fixed
/// per type and independent of any particular value. `pinv_with_precision`
/// draws its threshold from this trait; `pinv` instead uses the default
/// epsilon that every real field already carries, which for the standard
/// floating-point types is the same machine epsilon.
pub trait HasPrecision: Sized {
    /// The machine-epsilon-equivalent threshold of the type.
    fn epsilon() -> Self;
}

/// Relies on approx's `AbsDiffEq::default_epsilon`, a supertrait item of
/// every real field: the type's fixed default tolerance, which for the
/// standard floating-point types is their machine epsilon.
#[verifier::external_body]
pub(crate) fn default_epsilon_of<T: nalgebra::RealField>() -> T {
    <T as approx::AbsDiffEq>::default_epsilon()
}

} // verus!
