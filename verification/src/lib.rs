//! Moore-Penrose pseudoinverse of dense real matrices via singular value
//! decomposition: singular values are thresholded against the scalar type's
//! machine precision, the survivors are inverted, and the result is
//! reassembled from the decomposition factors.

mod mat;
mod precision;
mod pseudoinverse;

pub use mat::Mat;
pub use precision::HasPrecision;
pub use pseudoinverse::PinvError;
pub use pseudoinverse::SVD_ITERATION_LIMIT;
pub use pseudoinverse::pinv;
pub use pseudoinverse::pinv_with_precision;
