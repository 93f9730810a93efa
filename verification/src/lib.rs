//! Verified core of a safe binding layer for a native decision-tree inference
//! engine reached over a C ABI.
//!
//! The native engine does the actual tree evaluation; this crate holds the
//! logic around it: the closed set of element types and their string tokens,
//! translation of native return codes into structured errors, shape validation
//! for data-matrix construction (dense, flat and compressed-sparse-row), the
//! predictor's metadata and the checks its batch prediction owes, and the
//! ledger that accounts for every native handle being freed exactly once.
//! The unsafe calls themselves live outside this crate and pair each native
//! handle with the models defined here.

pub mod dmatrix;
pub mod errors;
pub mod lifecycle;
pub mod predictor;
pub mod sys;

pub use dmatrix::DMatrix;
pub use errors::TreeRiteError;
pub use lifecycle::FreePolicy;
pub use lifecycle::HandleLedger;
pub use predictor::Predictor;
pub use sys::DataType;
