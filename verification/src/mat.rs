use vstd::prelude::*;

verus! {

/// The smaller of two dimensions.
pub open spec fn min_dim(a: usize, b: usize) -> usize {
    if a <= b {
        a
    } else {
        b
    }
}

/// The row-major entries of the transpose of a matrix with the given shape,
/// itself stored row-major in `s`.
pub open spec fn transpose_of<T>(s: Seq<T>, rows: int, cols: int) -> Seq<T> {
    Seq::new((rows * cols) as nat, |t: int| s[(t % rows) * cols + t / rows])
}

/// A dense matrix with runtime row and column counts over a scalar type `T`.
///
/// The entries are held in row-major order; the view of a matrix is that
/// sequence of entries, whose length always equals rows·cols. The numeric
/// work on matrices — decomposition, multiplication, adjoint — is delegated
/// to nalgebra, converting between this representation and nalgebra's at
/// each call.
#[verifier::reject_recursive_types(T)]
pub struct Mat<T> {
    rows: usize,
    cols: usize,
    data: Vec<T>,
}

impl<T> View for Mat<T> {
    type V = Seq<T>;

    closed spec fn view(&self) -> Seq<T> {
        self.data@
    }
}

impl<T> Mat<T> {
    /// The entries fill the shape exactly.
    #[verifier::type_invariant]
    spec fn shape_matches_data(self) -> bool {
        self.data@.len() == self.rows * self.cols
    }

    /// The number of rows, as seen by specifications.
    pub closed spec fn spec_nrows(&self) -> usize {
        self.rows
    }

    /// The number of columns, as seen by specifications.
    pub closed spec fn spec_ncols(&self) -> usize {
        self.cols
    }

    /// The number of rows of the matrix.
    pub fn nrows(&self) -> (r: usize)
        ensures
            r == self.spec_nrows(),
    {
        self.rows
    }

    /// The number of columns of the matrix.
    pub fn ncols(&self) -> (r: usize)
        ensures
            r == self.spec_ncols(),
    {
        self.cols
    }

    /// Builds a rows×cols matrix from its entries in row-major order, or
    /// returns `None` when the data length is not exactly rows·cols.
    pub fn from_row_major(rows: usize, cols: usize, data: Vec<T>) -> (r: Option<Mat<T>>)
        ensures
            r is Some <==> data@.len() == rows * cols,
            r matches Some(m) ==> m.spec_nrows() == rows && m.spec_ncols() == cols && m@ == data@,
    {
        let n: usize = data.len();
        match rows.checked_mul(cols) {
            Some(len) => {
                if len == n {
                    Some(Mat { rows, cols, data })
                } else {
                    None
                }
            },
            None => None,
        }
    }

    /// A reference to the entry in row `i` and column `j`, or `None` when
    /// the position lies outside the matrix.
    pub fn entry(&self, i: usize, j: usize) -> (r: Option<&T>)
        ensures
            r is Some <==> i < self.spec_nrows() && j < self.spec_ncols(),
            r matches Some(x) ==> *x == self@[i * self.spec_ncols() + j],
    {
        proof {
            use_type_invariant(&*self);
        }
        if i < self.nrows() && j < self.ncols() {
            let n: usize = self.data.len();
            assert(i * self.spec_ncols() + j < n) by (nonlinear_arith)
                requires
                    i < self.spec_nrows(),
                    j < self.spec_ncols(),
                    n == self.spec_nrows() * self.spec_ncols(),
            ;
            let idx: usize = i * self.cols + j;
            Some(&self.data[idx])
        } else {
            None
        }
    }
}

/// Relies on nalgebra's `Matrix::adjoint`: the conjugate transpose of an
/// m×n matrix is an n×m matrix, and on a real scalar type conjugation is
/// the identity, so its entries are those of the plain transpose.
#[verifier::external_body]
pub(crate) fn adjoint_of<T: nalgebra::RealField>(m: &Mat<T>) -> (r: Mat<T>)
    ensures
        r.spec_nrows() == m.spec_ncols(),
        r.spec_ncols() == m.spec_nrows(),
        r@ == transpose_of(m@, m.spec_nrows() as int, m.spec_ncols() as int),
{
    let dm = nalgebra::DMatrix::from_row_slice(m.rows, m.cols, &m.data);
    let adj = dm.adjoint();
    Mat { rows: m.cols, cols: m.rows, data: adj.transpose().as_slice().to_vec() }
}

/// Relies on nalgebra's matrix multiplication: the product of a p×q matrix
/// and a q×r matrix is a p×r matrix. nalgebra panics when the inner
/// dimensions differ, so they are required to be equal.
#[verifier::external_body]
pub(crate) fn product_of<T: nalgebra::RealField>(a: &Mat<T>, b: &Mat<T>) -> (r: Mat<T>)
    requires
        a.spec_ncols() == b.spec_nrows(),
    ensures
        r.spec_nrows() == a.spec_nrows(),
        r.spec_ncols() == b.spec_ncols(),
{
    let da = nalgebra::DMatrix::from_row_slice(a.rows, a.cols, &a.data);
    let db = nalgebra::DMatrix::from_row_slice(b.rows, b.cols, &b.data);
    let prod = da * db;
    Mat { rows: a.rows, cols: b.cols, data: prod.transpose().as_slice().to_vec() }
}

/// Relies on nalgebra's `Matrix::from_diagonal`: the square k×k matrix
/// whose diagonal holds the k given values and whose other entries are
/// zero.
#[verifier::external_body]
pub(crate) fn diagonal_of<T: nalgebra::Scalar + num_traits::Zero>(d: &Vec<T>) -> (r: Mat<T>)
    ensures
        r.spec_nrows() == d@.len(),
        r.spec_ncols() == d@.len(),
        forall|i: int|
            0 <= i < d@.len() ==> #[trigger] d@[i] == r@[i * (d@.len() + 1)],
{
    let v = nalgebra::DVector::from_vec(d.clone());
    let dm = nalgebra::DMatrix::from_diagonal(&v);
    Mat { rows: d.len(), cols: d.len(), data: dm.transpose().as_slice().to_vec() }
}

/// The factors of a thin singular value decomposition of an m×n matrix,
/// with k = min(m, n) singular values.
#[verifier::reject_recursive_types(T)]
pub(crate) struct SvdFactors<T> {
    /// The left factor `U`, of shape m×k.
    pub u: Mat<T>,
    /// The k singular values, in no particular order.
    pub sigma: Vec<T>,
    /// The right factor `Vᵀ`, already transposed, of shape k×n.
    pub v_t: Mat<T>,
}

/// Relies on nalgebra's `SVD::try_new_unordered` with both factors
/// requested: for a nonempty m×n matrix it either gives up after `max_iter`
/// iterations without converging (`None`), or yields the thin factors `U`
/// (m×k), the k singular values and `Vᵀ` (k×n), with k = min(m, n) and no
/// promised order of the singular values. It panics on an empty matrix, so
/// a nonzero shape is required here.
#[verifier::external_body]
pub(crate) fn svd_factors<T: nalgebra::RealField>(m: Mat<T>, eps: T, max_iter: usize) -> (r: Option<
    SvdFactors<T>,
>)
    requires
        m.spec_nrows() >= 1,
        m.spec_ncols() >= 1,
    ensures
        r matches Some(f) ==> f.u.spec_nrows() == m.spec_nrows() && f.u.spec_ncols() == min_dim(
            m.spec_nrows(),
            m.spec_ncols(),
        ),
        r matches Some(f) ==> f.sigma@.len() == min_dim(m.spec_nrows(), m.spec_ncols()),
        r matches Some(f) ==> f.v_t.spec_nrows() == min_dim(m.spec_nrows(), m.spec_ncols())
            && f.v_t.spec_ncols() == m.spec_ncols(),
{
    let dm = nalgebra::DMatrix::from_row_slice(m.rows, m.cols, &m.data);
    let svd = nalgebra::linalg::SVD::try_new_unordered(dm, true, true, eps, max_iter)?;
    let u = svd.u?;
    let v_t = svd.v_t?;
    let (u_rows, u_cols) = (u.nrows(), u.ncols());
    let (vt_rows, vt_cols) = (v_t.nrows(), v_t.ncols());
    Some(SvdFactors {
        u: Mat { rows: u_rows, cols: u_cols, data: u.transpose().as_slice().to_vec() },
        sigma: svd.singular_values.as_slice().to_vec(),
        v_t: Mat { rows: vt_rows, cols: vt_cols, data: v_t.transpose().as_slice().to_vec() },
    })
}

} // verus!
