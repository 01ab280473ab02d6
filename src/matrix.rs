use vstd::prelude::*;

use crate::grid::{next_multiple_of, round_up};

verus! {

/// The matrix kernels are launched with the covered dimension (rows or
/// columns) rounded up to a multiple of this many workgroups, so that every
/// row or column has an invocation whatever the kernel's workgroup size; the
/// kernel skips the invocations past the end.
pub const MATMUL_GROUP: u32 = 32;

/// A dense matrix stored row by row: entry `(row, col)` is
/// `entries[row * width + col]`.
#[derive(Debug, PartialEq, Eq, Clone)]
pub struct Matrix<T> {
    pub entries: Vec<T>,
    pub width: usize,
    pub height: usize,
}

impl<T> Matrix<T> {
    /// There is one entry for each row and column.
    pub open spec fn wf(&self) -> bool {
        self.entries@.len() == self.width * self.height
    }

    /// A matrix of `height` rows of `width` entries each.
    pub fn new(entries: Vec<T>, width: usize, height: usize) -> (r: Self)
        requires
            entries@.len() == width * height,
        ensures
            r.wf(),
            r.entries@ == entries@,
            r.width == width,
            r.height == height,
    {
        Matrix { entries, width, height }
    }
}

/// Which dimension of the product the kernel's invocations walk along.
#[derive(Debug, PartialEq, Eq, Clone, Copy)]
pub enum MatmulStrategy {
    /// One invocation per row of the left matrix.
    ByRow,
    /// One invocation per column of the right matrix.
    ByCol,
}

/// Why two matrices cannot be multiplied.
#[derive(Debug, PartialEq, Eq, Clone, Copy)]
pub enum MatmulError {
    /// The left matrix's width differs from the right matrix's height.
    DimensionMismatch,
}

/// What a matrix product dispatch is launched with, and the shape of what
/// comes back.
#[derive(Debug, PartialEq, Eq, Clone, Copy)]
pub struct MatmulPlan {
    /// The scalar handed to the kernel after the left entries.
    pub left_width: u32,
    /// The scalar handed to the kernel after the right entries.
    pub right_width: u32,
    /// Workgroups along each of the three axes.
    pub grid: (u32, u32, u32),
    /// Entries the kernel writes: one per entry of the product.
    pub output_len: usize,
    /// Width of the product.
    pub result_width: usize,
    /// Height of the product.
    pub result_height: usize,
}

/// The dimension a strategy launches one invocation for.
pub open spec fn covered_dim(lh: int, rw: int, strategy: MatmulStrategy) -> int {
    match strategy {
        MatmulStrategy::ByRow => lh,
        MatmulStrategy::ByCol => rw,
    }
}

/// The plan for multiplying an `lh`-by-`lw` matrix by an `rh`-by-`rw` one.
pub open spec fn matmul_plan_spec(
    lw: int,
    lh: int,
    rw: int,
    rh: int,
    strategy: MatmulStrategy,
) -> Result<MatmulPlan, MatmulError> {
    if lw != rh {
        Err(MatmulError::DimensionMismatch)
    } else {
        Ok(
            MatmulPlan {
                left_width: lw as u32,
                right_width: rw as u32,
                grid: (round_up(covered_dim(lh, rw, strategy), MATMUL_GROUP as int) as u32, 1, 1),
                output_len: (lh * rw) as usize,
                result_width: rw as usize,
                result_height: lh as usize,
            },
        )
    }
}

/// The sizes fit what a dispatch can be launched with: widths in 32 bits,
/// the covered dimension rounded up in 32 bits, the product's entries in memory.
pub open spec fn launchable(lw: int, lh: int, rw: int) -> bool {
    &&& lw <= u32::MAX
    &&& rw <= u32::MAX
    &&& lh + MATMUL_GROUP - 1 <= u32::MAX
    &&& rw + MATMUL_GROUP - 1 <= u32::MAX
    &&& lh * rw <= usize::MAX
}

/// Checks that `left` and `right` can be multiplied and says how the product
/// kernel is launched; nothing is allocated when the shapes do not match.
pub fn plan_matmul<T>(left: &Matrix<T>, right: &Matrix<T>, strategy: MatmulStrategy) -> (r: Result<
    MatmulPlan,
    MatmulError,
>)
    requires
        left.width == right.height ==> launchable(
            left.width as int,
            left.height as int,
            right.width as int,
        ),
    ensures
        r == matmul_plan_spec(
            left.width as int,
            left.height as int,
            right.width as int,
            right.height as int,
            strategy,
        ),
        r is Err <==> left.width != right.height,
        r matches Ok(p) ==> p.wf(),
{
    if left.width != right.height {
        return Err(MatmulError::DimensionMismatch);
    }
    let covered: usize = match strategy {
        MatmulStrategy::ByRow => left.height,
        MatmulStrategy::ByCol => right.width,
    };
    let groups: u32 = next_multiple_of(covered as u32, MATMUL_GROUP);
    let output_len: usize = left.height * right.width;
    assert(output_len == right.width * left.height) by (nonlinear_arith)
        requires
            output_len == left.height * right.width,
    ;
    Ok(
        MatmulPlan {
            left_width: left.width as u32,
            right_width: right.width as u32,
            grid: (groups, 1, 1),
            output_len,
            result_width: right.width,
            result_height: left.height,
        },
    )
}

/// Shapes that do not fit are turned down, however large, whichever way the kernel walks the
/// product, so no GPU work is started for them.
pub proof fn lemma_mismatch_rejected(lw: int, lh: int, rw: int, rh: int)
    requires
        lw != rh,
    ensures
        matmul_plan_spec(lw, lh, rw, rh, MatmulStrategy::ByRow) == Err::<MatmulPlan, MatmulError>(
            MatmulError::DimensionMismatch,
        ),
        matmul_plan_spec(lw, lh, rw, rh, MatmulStrategy::ByCol) == Err::<MatmulPlan, MatmulError>(
            MatmulError::DimensionMismatch,
        ),
{
}

/// Both ways of walking the product ask for the same entries and give them
/// the same shape: `lh` rows of `rw` entries.
pub proof fn lemma_strategies_agree_on_shape(lw: int, lh: int, rw: int)
    ensures
        matmul_plan_spec(lw, lh, rw, lw, MatmulStrategy::ByRow) matches Ok(p)
            && matmul_plan_spec(lw, lh, rw, lw, MatmulStrategy::ByCol) matches Ok(q)
            && p.output_len == q.output_len && p.result_width == q.result_width
            && p.result_height == q.result_height && p.left_width == q.left_width
            && p.right_width == q.right_width,
{
}

impl MatmulPlan {
    /// The plan's shape agrees with its entry count.
    pub open spec fn wf(&self) -> bool {
        self.output_len == self.result_width * self.result_height
    }

    /// The product read back from the kernel: `None` when the kernel handed back
    /// a different number of entries than the plan asked for.
    pub fn assemble<T>(&self, entries: Vec<T>) -> (r: Option<Matrix<T>>)
        requires
            self.wf(),
        ensures
            r is Some <==> entries@.len() == self.output_len,
            r matches Some(m) ==> m.wf() && m.entries@ == entries@ && m.width == self.result_width
                && m.height == self.result_height,
    {
        if entries.len() != self.output_len {
            return None;
        }
        Some(Matrix::new(entries, self.result_width, self.result_height))
    }
}

} // verus!
