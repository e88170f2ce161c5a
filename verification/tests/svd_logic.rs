use lax::error::{as_lapack_result, SvdError};
use lax::flag::FlagSVD;
use lax::layout::MatrixLayout;
use lax::svd::{begin, ScalarKind, SvdPlan};

#[test]
fn flag_from_bool_true() {
    assert_eq!(FlagSVD::from_bool(true), FlagSVD::All);
}

#[test]
fn flag_from_bool_false() {
    assert_eq!(FlagSVD::from_bool(false), FlagSVD::No);
}

#[test]
fn flag_lapack_char() {
    assert_eq!(FlagSVD::All.lapack_char(), b'A');
    assert_eq!(FlagSVD::No.lapack_char(), b'N');
}

#[test]
fn layout_dimensions_column_major() {
    let l = MatrixLayout::ColumnMajor { rows: 2, cols: 3 };
    assert_eq!(l.rows(), 2);
    assert_eq!(l.cols(), 3);
    assert_eq!(l.leading_dimension(), 2);
    assert_eq!(l.other_dimension(), 3);
}

#[test]
fn layout_dimensions_row_major() {
    let l = MatrixLayout::RowMajor { rows: 2, cols: 3 };
    assert_eq!(l.rows(), 2);
    assert_eq!(l.cols(), 3);
    assert_eq!(l.leading_dimension(), 3);
    assert_eq!(l.other_dimension(), 2);
}

#[test]
fn status_zero_is_success() {
    assert_eq!(as_lapack_result(0), Ok(()));
}

#[test]
fn status_negative_is_invalid_argument() {
    assert_eq!(
        as_lapack_result(-6),
        Err(SvdError::InvalidArgument { position: 6 })
    );
}

#[test]
fn status_positive_is_convergence_failure() {
    assert_eq!(
        as_lapack_result(3),
        Err(SvdError::ConvergenceFailure { count: 3 })
    );
}

#[test]
fn status_most_negative_does_not_overflow() {
    assert_eq!(
        as_lapack_result(i32::MIN),
        Err(SvdError::InvalidArgument { position: -(i32::MIN as i64) })
    );
}

#[test]
fn plan_column_major_want_u_only() {
    let l = MatrixLayout::ColumnMajor { rows: 2, cols: 3 };
    let p = SvdPlan::new(ScalarKind::Real64, l, true, false);
    assert_eq!(p.ju, FlagSVD::All);
    assert_eq!(p.jvt, FlagSVD::No);
    assert_eq!(p.m, 2);
    assert_eq!(p.n, 3);
    assert_eq!(p.k, 2);
    assert_eq!(p.u_len, Some(4));
    assert_eq!(p.vt_len, None);
    assert_eq!(p.s_len, 2);
    assert_eq!(p.rwork_len, 0);
}

#[test]
fn plan_row_major_swaps_flags_and_dimensions() {
    // Same logical 2x3 matrix, same request (U only), stored row-major: the
    // kernel sees the transpose, so the caller's U request must govern the
    // kernel's V^T slot and the dimensions must appear exchanged.
    let l = MatrixLayout::RowMajor { rows: 2, cols: 3 };
    let p = SvdPlan::new(ScalarKind::Real64, l, true, false);
    assert_eq!(p.ju, FlagSVD::No);
    assert_eq!(p.jvt, FlagSVD::All);
    assert_eq!(p.m, 3);
    assert_eq!(p.n, 2);
    assert_eq!(p.k, 2);
    assert_eq!(p.u_len, None);
    assert_eq!(p.vt_len, Some(4));
    assert_eq!(p.s_len, 2);
}

#[test]
fn plan_complex_kind_sizes_real_scratch() {
    let l = MatrixLayout::ColumnMajor { rows: 4, cols: 3 };
    let p = SvdPlan::new(ScalarKind::Complex64, l, false, false);
    assert_eq!(p.k, 3);
    assert_eq!(p.rwork_len, 15);
    let q = SvdPlan::new(ScalarKind::Real32, l, false, false);
    assert_eq!(q.rwork_len, 0);
}

#[test]
fn plan_zero_rows_is_well_formed() {
    let l = MatrixLayout::ColumnMajor { rows: 0, cols: 3 };
    let p = SvdPlan::new(ScalarKind::Real64, l, true, true);
    assert_eq!(p.m, 0);
    assert_eq!(p.n, 3);
    assert_eq!(p.k, 0);
    assert_eq!(p.u_len, Some(0));
    assert_eq!(p.vt_len, Some(9));
    assert_eq!(p.s_len, 0);
}

#[test]
fn scalar_kinds_complex() {
    assert!(!ScalarKind::Real32.is_complex());
    assert!(!ScalarKind::Real64.is_complex());
    assert!(ScalarKind::Complex32.is_complex());
    assert!(ScalarKind::Complex64.is_complex());
}

#[test]
fn begin_fixes_the_plan() {
    let l = MatrixLayout::RowMajor { rows: 3, cols: 3 };
    let q = begin(ScalarKind::Real64, l, true, true);
    assert_eq!(q.plan, SvdPlan::new(ScalarKind::Real64, l, true, true));
}
