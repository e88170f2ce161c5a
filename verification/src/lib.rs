//! Singular-value decomposition driver logic.
//!
//! A dense `rows x cols` matrix is decomposed as `A = U * diag(s) * V^T` by an
//! external LAPACK kernel (`*gesvd`). Everything the kernel call needs besides
//! the floating-point buffers themselves is computed and checked here: the
//! storage-layout reconciliation, the factor-request flags, the buffer and
//! workspace sizes, the two-phase query-then-execute protocol, and the
//! translation of the kernel's status code into a structured error.

pub mod error;
pub mod flag;
pub mod layout;
pub mod svd;
