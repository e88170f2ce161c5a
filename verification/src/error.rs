use vstd::prelude::*;

verus! {

/// Structured translation of the kernel's integer status code.
#[derive(Clone, Copy, Debug, PartialEq, Eq, Structural)]
pub enum SvdError {
    /// The kernel reported a negative status: the call argument at the given
    /// 1-based position was invalid (bad dimension, flag, or leading
    /// dimension). A construction bug, never a numerical condition.
    InvalidArgument { position: i64 },
    /// The kernel reported a positive status: the bidiagonal QR iteration did
    /// not converge, with this many superdiagonal elements of the intermediate
    /// bidiagonal form still nonzero at the iteration limit.
    ConvergenceFailure { count: i64 },
}

/// The error a nonzero status code stands for.
pub open spec fn status_error(info: i32) -> SvdError {
    if info < 0 {
        SvdError::InvalidArgument { position: -(info as int) as i64 }
    } else {
        SvdError::ConvergenceFailure { count: info as i64 }
    }
}

/// Translate a kernel status code: zero is success, anything else is the
/// structured error of `status_error`.
pub fn as_lapack_result(info: i32) -> (r: Result<(), SvdError>)
    ensures
        r is Ok <==> info == 0,
        info != 0 ==> r == Err::<(), SvdError>(status_error(info)),
{
    if info == 0 {
        Ok(())
    } else if info < 0 {
        let position: i64 = -(info as i64);
        Err(SvdError::InvalidArgument { position })
    } else {
        Err(SvdError::ConvergenceFailure { count: info as i64 })
    }
}

} // verus!
