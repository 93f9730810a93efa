//! The predictor model: the metadata the native engine reports for a fully
//! loaded model, the size a prediction's output buffer owes, and the checks
//! batch prediction performs before any result is trusted.

use vstd::prelude::*;
use crate::dmatrix::DMatrix;
use crate::errors::TreeRiteError;
use crate::errors::is_native_error;
use crate::sys::DataType;

verus! {

/// Metadata of a loaded predictor. A value of this type stands for a model
/// whose native load fully succeeded; the native handle lives outside this
/// crate and is paired with this model, and every metadata query answers from
/// what the load reported.
pub struct Predictor {
    /// Number of features each input row must carry.
    pub num_feature: u64,
    /// Number of classes the model predicts over.
    pub num_class: u64,
    /// Name of the prediction transform the model applies.
    pub pred_transform: String,
    /// Element type of the model's leaf outputs.
    pub leaf_output_type: DataType,
    /// Element type of the model's split thresholds.
    pub threshold_type: DataType,
}

/// Model of the native-allocated output buffer: how many values it holds room
/// for, and whether a prediction has populated it.
pub struct PredictorOutputVector {
    /// Number of values the buffer was sized for.
    pub size: u64,
    /// Whether a successful prediction has filled every slot.
    pub populated: bool,
}

impl Predictor {
    /// Record the metadata of a model whose native load succeeded in full; no
    /// partially loaded model reaches this constructor.
    pub fn from_metadata(
        num_feature: u64,
        num_class: u64,
        pred_transform: String,
        leaf_output_type: DataType,
        threshold_type: DataType,
    ) -> (p: Predictor)
        ensures
            p.num_feature == num_feature,
            p.num_class == num_class,
            p.pred_transform@ == pred_transform@,
            p.leaf_output_type == leaf_output_type,
            p.threshold_type == threshold_type,
    {
        Predictor { num_feature, num_class, pred_transform, leaf_output_type, threshold_type }
    }

    /// Number of features the model expects per row.
    pub fn query_num_feature(&self) -> (r: Result<u64, TreeRiteError>)
        ensures
            r == Ok::<u64, TreeRiteError>(self.num_feature),
    {
        Ok(self.num_feature)
    }

    /// Number of classes the model predicts over.
    pub fn query_num_class(&self) -> (r: Result<u64, TreeRiteError>)
        ensures
            r == Ok::<u64, TreeRiteError>(self.num_class),
    {
        Ok(self.num_class)
    }

    /// Name of the prediction transform the model applies.
    pub fn query_pred_transform(&self) -> (r: Result<String, TreeRiteError>)
        ensures
            r matches Ok(s) && s@ == self.pred_transform@,
    {
        Ok(self.pred_transform.clone())
    }

    /// Element type of the model's leaf outputs.
    pub fn query_leaf_output_type(&self) -> (r: Result<DataType, TreeRiteError>)
        ensures
            r == Ok::<DataType, TreeRiteError>(self.leaf_output_type),
    {
        Ok(self.leaf_output_type)
    }

    /// Element type of the model's split thresholds.
    pub fn query_threshold_type(&self) -> (r: Result<DataType, TreeRiteError>)
        ensures
            r == Ok::<DataType, TreeRiteError>(self.threshold_type),
    {
        Ok(self.threshold_type)
    }

    /// Size of the output buffer a prediction over the given matrix needs:
    /// one value per row and class. A product beyond the 64-bit range is
    /// rejected with the native-reported error kind.
    pub fn query_result_size<F>(&self, dmatrix: &DMatrix<F>) -> (r: Result<u64, TreeRiteError>)
        ensures
            dmatrix.num_row * self.num_class <= u64::MAX ==> r == Ok::<u64, TreeRiteError>(
                (dmatrix.num_row * self.num_class) as u64,
            ),
            dmatrix.num_row * self.num_class > u64::MAX ==> (r matches Err(e)
                && is_native_error(e, "result size does not fit in a 64-bit count"@)),
    {
        match dmatrix.num_row.checked_mul(self.num_class) {
            Some(size) => Ok(size),
            None => Err(TreeRiteError::CError(
                "result size does not fit in a 64-bit count".to_owned(),
            )),
        }
    }

    /// Allocate the model of an output buffer sized for a prediction over the
    /// given matrix: room for one value per row and class, not yet populated.
    pub fn create_output_vector<F>(&self, dmatrix: &DMatrix<F>) -> (r: Result<
        PredictorOutputVector,
        TreeRiteError,
    >)
        ensures
            dmatrix.num_row * self.num_class <= u64::MAX ==> (r matches Ok(out)
                && out.size == dmatrix.num_row * self.num_class
                && !out.populated),
            dmatrix.num_row * self.num_class > u64::MAX ==> (r matches Err(e)
                && is_native_error(e, "result size does not fit in a 64-bit count"@)),
    {
        match self.query_result_size(dmatrix) {
            Ok(size) => Ok(PredictorOutputVector { size, populated: false }),
            Err(e) => Err(e),
        }
    }

    /// Run batch inference over the matrix into the output buffer. A matrix
    /// whose column count differs from the model's feature count is rejected
    /// before any output is produced, as is a buffer not sized by the
    /// result-size query; on success every slot of the buffer is populated
    /// and the number of values written is returned. Neither the matrix nor
    /// the predictor changes.
    pub fn predict_batch<F>(
        &self,
        dmatrix: &DMatrix<F>,
        output: &mut PredictorOutputVector,
    ) -> (r: Result<u64, TreeRiteError>)
        ensures
            dmatrix.num_col != self.num_feature ==> (r matches Err(e)
                && is_native_error(e, "feature count of the data matrix does not match the predictor"@)
                && *final(output) == *old(output)),
            dmatrix.num_col == self.num_feature && old(output).size != dmatrix.num_row
                * self.num_class ==> (r matches Err(e)
                && is_native_error(e, "output vector size does not match the result size"@)
                && *final(output) == *old(output)),
            dmatrix.num_col == self.num_feature && old(output).size == dmatrix.num_row
                * self.num_class ==> (r == Ok::<u64, TreeRiteError>(old(output).size)
                && final(output).size == old(output).size
                && final(output).populated),
    {
        if dmatrix.num_col != self.num_feature {
            return Err(TreeRiteError::CError(
                "feature count of the data matrix does not match the predictor".to_owned(),
            ));
        }
        let sized = match dmatrix.num_row.checked_mul(self.num_class) {
            Some(size) => output.size == size,
            None => false,
        };
        if !sized {
            return Err(TreeRiteError::CError(
                "output vector size does not match the result size".to_owned(),
            ));
        }
        output.populated = true;
        Ok(output.size)
    }
}

} // verus!
