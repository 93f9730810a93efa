//! The data-matrix model: the shape the native engine reports for a handle
//! built from dense, flat or compressed-sparse-row input, and the validation
//! each construction owes.

use vstd::prelude::*;
use vstd::slice::slice_index_get;
use core::marker::PhantomData;
use crate::errors::TreeRiteError;
use crate::errors::is_native_error;

verus! {

/// The shape of a native data matrix, parameterized over the element type the
/// instance is statically bound to. The native handle built for the same
/// input lives outside this crate and is paired with this model; the counts
/// here are exactly the counts the engine reports for that handle.
pub struct DMatrix<F> {
    /// Number of rows the matrix holds.
    pub num_row: u64,
    /// Number of columns the matrix holds.
    pub num_col: u64,
    /// Marker binding the instance to its element type.
    pub element: PhantomData<F>,
}

/// Well-formed compressed-sparse-row input: one row offset per row plus one,
/// offsets starting at zero and never decreasing, the last offset equal to
/// the number of stored values, exactly one column index per value, and every
/// column index inside the column count.
pub open spec fn csr_well_formed(
    headers: Seq<u64>,
    indices: Seq<u32>,
    data_len: nat,
    num_row: u64,
    num_col: u64,
) -> bool {
    &&& headers.len() == num_row + 1
    &&& headers[0] == 0
    &&& forall|i: int| 0 <= i < headers.len() - 1 ==> #[trigger] headers[i] <= headers[i + 1]
    &&& headers[headers.len() - 1] == data_len
    &&& indices.len() == data_len
    &&& forall|i: int| 0 <= i < indices.len() ==> indices[i] < num_col
}

impl<F> DMatrix<F> {
    /// The matrix a dense two-dimensional array of the given shape yields:
    /// the reported counts are exactly the array's.
    pub fn from_dense_shape(num_row: u64, num_col: u64) -> (m: DMatrix<F>)
        ensures
            m.num_row == num_row,
            m.num_col == num_col,
    {
        DMatrix { num_row, num_col, element: PhantomData }
    }

    /// A single-row matrix over a flat slice: one row, one column per
    /// element.
    pub fn from_slice(array: &[F]) -> (m: DMatrix<F>)
        ensures
            m.num_row == 1,
            m.num_col == array@.len(),
    {
        DMatrix { num_row: 1, num_col: array.len() as u64, element: PhantomData }
    }

    /// A matrix over a flat slice with an explicit column count. The column
    /// count must be positive and evenly divide the slice length; any other
    /// count is rejected with the native-reported error kind.
    pub fn from_slice_with_cols(array: &[F], ncols: u64) -> (r: Result<DMatrix<F>, TreeRiteError>)
        ensures
            ncols != 0 && array@.len() as int % (ncols as int) == 0 ==> (r matches Ok(m)
                && m.num_row == array@.len() as int / (ncols as int)
                && m.num_col == ncols),
            ncols == 0 || array@.len() as int % (ncols as int) != 0 ==> (r matches Err(e)
                && is_native_error(e, "column count does not evenly divide the slice length"@)),
    {
        let len: u64 = array.len() as u64;
        if ncols == 0 || len % ncols != 0 {
            Err(TreeRiteError::CError(
                "column count does not evenly divide the slice length".to_owned(),
            ))
        } else {
            Ok(DMatrix { num_row: len / ncols, num_col: ncols, element: PhantomData })
        }
    }

    /// A matrix over compressed-sparse-row components. Well-formed components
    /// yield exactly the given row and column counts; malformed components
    /// are rejected with the native-reported error kind, never a crash.
    pub fn from_csr_format(
        headers: &[u64],
        indices: &[u32],
        data: &[F],
        num_row: u64,
        num_col: u64,
    ) -> (r: Result<DMatrix<F>, TreeRiteError>)
        ensures
            csr_well_formed(headers@, indices@, data@.len(), num_row, num_col) ==> (r matches Ok(m)
                && m.num_row == num_row
                && m.num_col == num_col),
            !csr_well_formed(headers@, indices@, data@.len(), num_row, num_col) ==> (r matches Err(e)
                && is_native_error(e, "malformed compressed-sparse-row components"@)),
    {
        let h_len: usize = headers.len();
        let i_len: usize = indices.len();
        let d_len: usize = data.len();
        let mut ok: bool = num_row < u64::MAX && h_len as u64 == num_row + 1;
        ok = ok && *slice_index_get(headers, 0) == 0;
        ok = ok && *slice_index_get(headers, h_len - 1) == d_len as u64;
        ok = ok && i_len == d_len;
        if ok {
            let mut i: usize = 0;
            while i + 1 < h_len
                invariant
                    h_len == headers@.len(),
                    i < h_len,
                    forall|j: int| 0 <= j < i ==> #[trigger] headers@[j] <= headers@[j + 1],
                decreases h_len - i,
            {
                if *slice_index_get(headers, i) > *slice_index_get(headers, i + 1) {
                    assert(!(headers@[i as int] <= headers@[i as int + 1]));
                    return Err(TreeRiteError::CError(
                        "malformed compressed-sparse-row components".to_owned(),
                    ));
                }
                i = i + 1;
            }
            let mut k: usize = 0;
            while k < i_len
                invariant
                    i_len == indices@.len(),
                    k <= i_len,
                    forall|j: int| 0 <= j < k ==> indices@[j] < num_col,
                decreases i_len - k,
            {
                if *slice_index_get(indices, k) as u64 >= num_col {
                    assert(!(indices@[k as int] < num_col));
                    return Err(TreeRiteError::CError(
                        "malformed compressed-sparse-row components".to_owned(),
                    ));
                }
                k = k + 1;
            }
            Ok(DMatrix { num_row, num_col, element: PhantomData })
        } else {
            Err(TreeRiteError::CError(
                "malformed compressed-sparse-row components".to_owned(),
            ))
        }
    }

    /// Number of rows in this matrix, as the dimension query reports it.
    pub fn nrows(&self) -> (r: Result<u64, TreeRiteError>)
        ensures
            r == Ok::<u64, TreeRiteError>(self.num_row),
    {
        Ok(self.num_row)
    }

    /// Number of columns in this matrix, as the dimension query reports it.
    pub fn ncols(&self) -> (r: Result<u64, TreeRiteError>)
        ensures
            r == Ok::<u64, TreeRiteError>(self.num_col),
    {
        Ok(self.num_col)
    }
}

} // verus!
