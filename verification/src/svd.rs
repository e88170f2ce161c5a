use crate::error::{as_lapack_result, status_error, SvdError};
use crate::flag::FlagSVD;
use crate::layout::MatrixLayout;
use vstd::prelude::*;

verus! {

/// The four scalar kinds the decomposition supports. Each binds to its own
/// kernel entry point; the complex kinds additionally need a real-valued
/// scratch array for the QR iteration's intermediate quantities.
#[derive(Clone, Copy, Debug, PartialEq, Eq, Structural)]
pub enum ScalarKind {
    Real32,
    Real64,
    Complex32,
    Complex64,
}

impl ScalarKind {
    pub open spec fn is_complex_spec(self) -> bool {
        self is Complex32 || self is Complex64
    }

    pub fn is_complex(&self) -> (b: bool)
        ensures
            b == self.is_complex_spec(),
    {
        match self {
            ScalarKind::Complex32 => true,
            ScalarKind::Complex64 => true,
            ScalarKind::Real32 => false,
            ScalarKind::Real64 => false,
        }
    }
}

/// Result of SVD: the singular values and the factors that were requested.
/// `R` is the real scalar type of the singular values, `A` the (possibly
/// complex) scalar type of the factor matrices.
pub struct SVDOutput<R, A> {
    /// Singular values, length `min(rows, cols)`.
    pub s: Vec<R>,
    /// Unitary factor for the destination space (`m x m`), present exactly
    /// when it was requested.
    pub u: Option<Vec<A>>,
    /// Transposed (conjugate-transposed for complex kinds) unitary factor for
    /// the departure space (`n x n`), present exactly when it was requested.
    pub vt: Option<Vec<A>>,
}

/// The flag handed to the kernel's U slot. A row-major buffer reread as
/// column-major holds the transpose, whose decomposition delivers V in the U
/// slot, so under row-major storage the caller's V^T request governs this
/// slot.
pub open spec fn u_slot_flag(layout: MatrixLayout, calc_u: bool, calc_vt: bool) -> FlagSVD {
    if layout is ColumnMajor {
        FlagSVD::from_bool_spec(calc_u)
    } else {
        FlagSVD::from_bool_spec(calc_vt)
    }
}

/// The flag handed to the kernel's V^T slot; the mirror of `u_slot_flag`.
pub open spec fn vt_slot_flag(layout: MatrixLayout, calc_u: bool, calc_vt: bool) -> FlagSVD {
    if layout is ColumnMajor {
        FlagSVD::from_bool_spec(calc_vt)
    } else {
        FlagSVD::from_bool_spec(calc_u)
    }
}

/// Everything a kernel invocation needs besides the scalar buffers: the slot
/// flags after layout reconciliation, the kernel-facing dimensions, and the
/// exact lengths of every buffer the driver must allocate.
#[derive(Clone, Copy, Debug, PartialEq, Eq, Structural)]
pub struct SvdPlan {
    pub kind: ScalarKind,
    pub layout: MatrixLayout,
    /// Request flag for the kernel's U slot.
    pub ju: FlagSVD,
    /// Request flag for the kernel's V^T slot.
    pub jvt: FlagSVD,
    /// Kernel-facing row count and leading dimension.
    pub m: i32,
    /// Kernel-facing column count.
    pub n: i32,
    /// `min(m, n)`: the number of singular values.
    pub k: i32,
    /// Length of the U-slot buffer (`m * m`), present exactly when the U slot
    /// is computed.
    pub u_len: Option<usize>,
    /// Length of the V^T-slot buffer (`n * n`), present exactly when the V^T
    /// slot is computed.
    pub vt_len: Option<usize>,
    /// Length of the singular-value buffer (`k`).
    pub s_len: usize,
    /// Length of the real scratch array (`5 * k` for the complex kinds, which
    /// need it for both kernel invocations; zero for the real kinds).
    pub rwork_len: usize,
}

/// The sizes the plan computes must fit in `usize`.
pub open spec fn sizes_fit(layout: MatrixLayout) -> bool {
    &&& layout.rows_spec() * layout.rows_spec() <= usize::MAX as int
    &&& layout.cols_spec() * layout.cols_spec() <= usize::MAX as int
    &&& 5 * vstd::math::min(layout.rows_spec(), layout.cols_spec()) <= usize::MAX as int
}

pub open spec fn plan_spec(
    kind: ScalarKind,
    layout: MatrixLayout,
    calc_u: bool,
    calc_vt: bool,
) -> SvdPlan {
    let m = layout.leading_dimension_spec();
    let n = layout.other_dimension_spec();
    let k = vstd::math::min(m, n);
    let ju = u_slot_flag(layout, calc_u, calc_vt);
    let jvt = vt_slot_flag(layout, calc_u, calc_vt);
    SvdPlan {
        kind,
        layout,
        ju,
        jvt,
        m: m as i32,
        n: n as i32,
        k: k as i32,
        u_len: if ju is All {
            Some((m * m) as usize)
        } else {
            None
        },
        vt_len: if jvt is All {
            Some((n * n) as usize)
        } else {
            None
        },
        s_len: k as usize,
        rwork_len: if kind.is_complex_spec() {
            (5 * k) as usize
        } else {
            0
        },
    }
}

impl SvdPlan {
    /// Resolve the slot flags through the layout swap, derive the
    /// kernel-facing dimensions, and size every buffer of the call.
    pub fn new(kind: ScalarKind, layout: MatrixLayout, calc_u: bool, calc_vt: bool) -> (p: SvdPlan)
        requires
            layout.wf(),
            sizes_fit(layout),
        ensures
            p == plan_spec(kind, layout, calc_u, calc_vt),
    {
        let ju = match layout {
            MatrixLayout::ColumnMajor { .. } => FlagSVD::from_bool(calc_u),
            MatrixLayout::RowMajor { .. } => FlagSVD::from_bool(calc_vt),
        };
        let jvt = match layout {
            MatrixLayout::ColumnMajor { .. } => FlagSVD::from_bool(calc_vt),
            MatrixLayout::RowMajor { .. } => FlagSVD::from_bool(calc_u),
        };
        let m = layout.leading_dimension();
        let n = layout.other_dimension();
        let k = if m < n {
            m
        } else {
            n
        };
        let u_len = match ju {
            FlagSVD::All => Some((m as usize) * (m as usize)),
            FlagSVD::No => None,
        };
        let vt_len = match jvt {
            FlagSVD::All => Some((n as usize) * (n as usize)),
            FlagSVD::No => None,
        };
        let s_len = k as usize;
        let rwork_len = if kind.is_complex() {
            5 * (k as usize)
        } else {
            0
        };
        SvdPlan { kind, layout, ju, jvt, m, n, k, u_len, vt_len, s_len, rwork_len }
    }
}

/// The output-slot swap of the layout reconciliation: under column-major
/// storage the kernel's slots already are the caller's factors; under
/// row-major storage the kernel decomposed the transpose, so its U slot holds
/// the caller's V^T and its V^T slot holds the caller's U.
pub open spec fn finish_spec<R, A>(
    layout: MatrixLayout,
    s: Vec<R>,
    u: Option<Vec<A>>,
    vt: Option<Vec<A>>,
) -> SVDOutput<R, A> {
    if layout is ColumnMajor {
        SVDOutput { s, u, vt }
    } else {
        SVDOutput { s, u: vt, vt: u }
    }
}

/// A slot buffer exists exactly when the plan sized it, and then with exactly
/// the planned length.
pub open spec fn buffer_matches<A>(buf: Option<Vec<A>>, len: Option<usize>) -> bool {
    match (buf, len) {
        (Some(b), Some(l)) => b.len() == l,
        (None, None) => true,
        _ => false,
    }
}

/// First phase of the protocol: the plan is fixed and the workspace-size
/// query is the next kernel invocation.
pub struct SvdQuery {
    pub plan: SvdPlan,
}

/// Second phase: the query succeeded and the execution call is next. A value
/// of this type exists only behind a zero query status, so a query failure
/// aborts the protocol before the execution stage.
pub struct SvdExec {
    pub plan: SvdPlan,
}

/// Start a decomposition: fix the plan and enter the query phase.
pub fn begin(kind: ScalarKind, layout: MatrixLayout, calc_u: bool, calc_vt: bool) -> (q: SvdQuery)
    requires
        layout.wf(),
        sizes_fit(layout),
    ensures
        q.plan == plan_spec(kind, layout, calc_u, calc_vt),
{
    SvdQuery { plan: SvdPlan::new(kind, layout, calc_u, calc_vt) }
}

impl SvdQuery {
    /// Check the status of the workspace query. Only a zero status advances
    /// to the execution phase; any other status ends the call with the
    /// structured error and no output.
    pub fn check_query(self, info: i32) -> (r: Result<SvdExec, SvdError>)
        ensures
            r is Ok <==> info == 0,
            info == 0 ==> (r matches Ok(e) && e.plan == self.plan),
            info != 0 ==> r == Err::<SvdExec, SvdError>(status_error(info)),
    {
        match as_lapack_result(info) {
            Ok(_) => Ok(SvdExec { plan: self.plan }),
            Err(e) => Err(e),
        }
    }
}

impl SvdExec {
    /// Check the status of the execution call. On success apply the
    /// output-slot swap and hand every requested factor to the caller; on any
    /// nonzero status discard the buffers and return the structured error.
    pub fn complete<R, A>(
        self,
        info: i32,
        s: Vec<R>,
        u: Option<Vec<A>>,
        vt: Option<Vec<A>>,
    ) -> (r: Result<SVDOutput<R, A>, SvdError>)
        requires
            s.len() == self.plan.s_len,
            buffer_matches(u, self.plan.u_len),
            buffer_matches(vt, self.plan.vt_len),
        ensures
            r is Ok <==> info == 0,
            info == 0 ==> r == Ok::<SVDOutput<R, A>, SvdError>(
                finish_spec(self.plan.layout, s, u, vt),
            ),
            info != 0 ==> r == Err::<SVDOutput<R, A>, SvdError>(status_error(info)),
    {
        match as_lapack_result(info) {
            Ok(_) => match self.plan.layout {
                MatrixLayout::ColumnMajor { .. } => Ok(SVDOutput { s, u, vt }),
                MatrixLayout::RowMajor { .. } => Ok(SVDOutput { s, u: vt, vt: u }),
            },
            Err(e) => Err(e),
        }
    }
}

/// The plan's dimensions: the kernel-facing sizes are the layout's leading
/// and other dimension, the singular-value count is `min(rows, cols)`
/// whichever storage order describes the matrix, a slot buffer is sized
/// exactly when its flag asks for the factor, and only the complex kinds get
/// a real scratch array.
pub proof fn lemma_plan_dimensions(
    kind: ScalarKind,
    layout: MatrixLayout,
    calc_u: bool,
    calc_vt: bool,
)
    requires
        layout.wf(),
        sizes_fit(layout),
    ensures
        ({
            let p = plan_spec(kind, layout, calc_u, calc_vt);
            &&& p.m == layout.leading_dimension_spec()
            &&& p.n == layout.other_dimension_spec()
            &&& p.k == vstd::math::min(layout.rows_spec(), layout.cols_spec())
            &&& p.s_len == p.k
            &&& (p.u_len is Some <==> u_slot_flag(layout, calc_u, calc_vt) is All)
            &&& (p.vt_len is Some <==> vt_slot_flag(layout, calc_u, calc_vt) is All)
            &&& p.rwork_len == if kind.is_complex_spec() {
                5 * p.k as int
            } else {
                0
            }
        }),
{
}

/// Selective computation: however the matrix is stored, the finished output
/// carries a U factor exactly when U was requested and a V^T factor exactly
/// when V^T was requested, and always carries the singular values unchanged.
pub proof fn lemma_selective_computation<R, A>(
    kind: ScalarKind,
    layout: MatrixLayout,
    calc_u: bool,
    calc_vt: bool,
    s: Vec<R>,
    u: Option<Vec<A>>,
    vt: Option<Vec<A>>,
)
    requires
        u is Some <==> plan_spec(kind, layout, calc_u, calc_vt).ju is All,
        vt is Some <==> plan_spec(kind, layout, calc_u, calc_vt).jvt is All,
    ensures
        finish_spec(layout, s, u, vt).u is Some <==> calc_u,
        finish_spec(layout, s, u, vt).vt is Some <==> calc_vt,
        finish_spec(layout, s, u, vt).s == s,
{
}

/// Layout equivalence, the structural half: the same logical matrix described
/// once row-major and once column-major yields kernel calls whose slot flags,
/// slot buffer sizes and dimensions are exchanged, with the same
/// singular-value count and scratch size; and the final output swap returns
/// the kernel's slots to the same caller-facing fields under either
/// description.
pub proof fn lemma_layout_equivalence<R, A>(
    kind: ScalarKind,
    rows: i32,
    cols: i32,
    calc_u: bool,
    calc_vt: bool,
    s: Vec<R>,
    u_slot: Option<Vec<A>>,
    vt_slot: Option<Vec<A>>,
)
    ensures
        ({
            let rm = plan_spec(kind, MatrixLayout::RowMajor { rows, cols }, calc_u, calc_vt);
            let cm = plan_spec(kind, MatrixLayout::ColumnMajor { rows, cols }, calc_u, calc_vt);
            &&& rm.ju == cm.jvt
            &&& rm.jvt == cm.ju
            &&& rm.m == cm.n
            &&& rm.n == cm.m
            &&& rm.k == cm.k
            &&& rm.s_len == cm.s_len
            &&& rm.rwork_len == cm.rwork_len
            &&& rm.u_len == cm.vt_len
            &&& rm.vt_len == cm.u_len
        }),
        finish_spec(MatrixLayout::RowMajor { rows, cols }, s, u_slot, vt_slot).u == vt_slot,
        finish_spec(MatrixLayout::RowMajor { rows, cols }, s, u_slot, vt_slot).vt == u_slot,
        finish_spec(MatrixLayout::ColumnMajor { rows, cols }, s, u_slot, vt_slot).u == u_slot,
        finish_spec(MatrixLayout::ColumnMajor { rows, cols }, s, u_slot, vt_slot).vt == vt_slot,
{
}

} // verus!
