//! Cost functions and the shape of the buffers they are handed.
//!
//! The native solver passes a cost function flat buffers: one per parameter
//! block, one for the residuals, and, when it wants derivatives, one flat
//! buffer per parameter block (or a null pointer where it does not need that
//! block's derivatives). A cost function sees the derivative buffer of block
//! `k` as `num_residuals` rows of `parameter_sizes[k]` entries, row-major:
//! the row is the residual, the column the parameter component.

use vstd::prelude::*;

verus! {

/// What a cost function is: the callable, the size of each parameter block
/// it takes, and the number of residuals it writes.
pub struct CostFunctionView<C> {
    pub func: C,
    pub parameter_sizes: Seq<usize>,
    pub num_residuals: usize,
}

/// A cost function of a residual block.
pub struct CostFunction<C> {
    func: C,
    parameter_sizes: Vec<usize>,
    num_residuals: usize,
}

impl<C> View for CostFunction<C> {
    type V = CostFunctionView<C>;

    closed spec fn view(&self) -> CostFunctionView<C> {
        CostFunctionView {
            func: self.func,
            parameter_sizes: self.parameter_sizes@,
            num_residuals: self.num_residuals,
        }
    }
}

impl<C> CostFunction<C> {
    /// A cost function taking blocks of `parameter_sizes` and writing
    /// `num_residuals` residuals.
    pub fn new(func: C, parameter_sizes: Vec<usize>, num_residuals: usize) -> (r: Self)
        ensures
            r@ == (CostFunctionView { func, parameter_sizes: parameter_sizes@, num_residuals }),
    {
        CostFunction { func, parameter_sizes, num_residuals }
    }

    /// Sizes of the parameter blocks, in order.
    pub fn parameter_sizes(&self) -> (r: &[usize])
        ensures
            r@ == self@.parameter_sizes,
    {
        self.parameter_sizes.as_slice()
    }

    /// Number of residuals.
    pub fn num_residuals(&self) -> (r: usize)
        ensures
            r == self@.num_residuals,
    {
        self.num_residuals
    }

    /// The callable.
    pub fn func(&self) -> (r: &C)
        ensures
            *r == self@.func,
    {
        &self.func
    }

    /// Gives back the callable.
    pub fn into_inner(self) -> (r: C)
        ensures
            r == self@.func,
    {
        self.func
    }
}

/// `rows` is `flat` seen as `num_rows` rows of `cols` entries, row-major.
pub open spec fn is_row_major<T>(rows: Seq<Vec<T>>, flat: Seq<T>, num_rows: nat, cols: nat) -> bool {
    &&& rows.len() == num_rows
    &&& flat.len() == num_rows * cols
    &&& forall|i: int| 0 <= i < num_rows ==> (#[trigger] rows[i])@.len() == cols
    &&& forall|i: int, j: int|
        0 <= i < num_rows && 0 <= j < cols ==> (#[trigger] rows[i]@[j]) == flat[i * cols + j]
}

proof fn lemma_row_index(i: int, j: int, rows: int, cols: int)
    requires
        0 <= i < rows,
        0 <= j < cols,
    ensures
        0 <= i * cols + j < rows * cols,
        i * cols + j < (i + 1) * cols,
{
    assert(0 <= i * cols + j < rows * cols) by (nonlinear_arith)
        requires
            0 <= i < rows,
            0 <= j < cols,
    ;
    assert(i * cols + j < (i + 1) * cols) by (nonlinear_arith)
        requires
            0 <= j < cols,
    ;
}

proof fn lemma_row_end(i: int, rows: int, cols: int)
    requires
        0 <= i < rows,
        0 <= cols,
    ensures
        0 <= i * cols,
        i * cols + cols <= rows * cols,
        (i + 1) * cols == i * cols + cols,
{
    assert(0 <= i * cols) by (nonlinear_arith)
        requires
            0 <= i,
            0 <= cols,
    ;
    assert(i * cols + cols <= rows * cols) by (nonlinear_arith)
        requires
            0 <= i < rows,
            0 <= cols,
    ;
    assert((i + 1) * cols == i * cols + cols) by (nonlinear_arith);
}

/// Splits the flat derivative buffer of one parameter block into one row per
/// residual.
pub fn derivative_rows<T: Copy>(flat: &[T], parameter_size: usize, num_residuals: usize) -> (r: Vec<
    Vec<T>,
>)
    requires
        flat@.len() == num_residuals * parameter_size,
    ensures
        is_row_major(r@, flat@, num_residuals as nat, parameter_size as nat),
{
    let n = flat.len();
    let mut rows: Vec<Vec<T>> = Vec::new();
    let mut i: usize = 0;
    let mut offset: usize = 0;
    while i < num_residuals
        invariant
            flat@.len() == num_residuals * parameter_size,
            n == flat@.len(),
            i <= num_residuals,
            offset == i * parameter_size,
            rows@.len() == i,
            forall|a: int| 0 <= a < i ==> (#[trigger] rows@[a])@.len() == parameter_size,
            forall|a: int, b: int|
                0 <= a < i && 0 <= b < parameter_size ==> (#[trigger] rows@[a]@[b]) == flat@[a
                    * parameter_size + b],
        decreases num_residuals - i,
    {
        proof {
            lemma_row_end(i as int, num_residuals as int, parameter_size as int);
        }
        let mut row: Vec<T> = Vec::new();
        let mut j: usize = 0;
        while j < parameter_size
            invariant
                flat@.len() == num_residuals * parameter_size,
                n == flat@.len(),
                i < num_residuals,
                offset == i * parameter_size,
                offset + parameter_size <= flat@.len(),
                j <= parameter_size,
                row@.len() == j,
                forall|b: int| 0 <= b < j ==> (#[trigger] row@[b]) == flat@[i * parameter_size + b],
            decreases parameter_size - j,
        {
            row.push(flat[offset + j]);
            j += 1;
        }
        rows.push(row);
        offset = offset + parameter_size;
        i += 1;
    }
    rows
}

/// Writes rows of `cols` entries back into one flat row-major buffer.
pub fn flatten_rows<T: Copy>(rows: &Vec<Vec<T>>, cols: usize) -> (r: Vec<T>)
    requires
        forall|i: int| 0 <= i < rows@.len() ==> (#[trigger] rows@[i])@.len() == cols,
        rows@.len() * cols <= usize::MAX,
    ensures
        is_row_major(rows@, r@, rows@.len(), cols as nat),
{
    let mut flat: Vec<T> = Vec::new();
    let mut i: usize = 0;
    while i < rows.len()
        invariant
            forall|a: int| 0 <= a < rows@.len() ==> (#[trigger] rows@[a])@.len() == cols,
            rows@.len() * cols <= usize::MAX,
            i <= rows@.len(),
            flat@.len() == i * cols,
            forall|a: int, b: int|
                0 <= a < i && 0 <= b < cols ==> (#[trigger] rows@[a]@[b]) == flat@[a * cols + b],
        decreases rows@.len() - i,
    {
        proof {
            lemma_row_end(i as int, rows@.len() as int, cols as int);
        }
        let row = &rows[i];
        let mut j: usize = 0;
        while j < cols
            invariant
                forall|a: int| 0 <= a < rows@.len() ==> (#[trigger] rows@[a])@.len() == cols,
                i < rows@.len(),
                *row == rows@[i as int],
                j <= cols,
                flat@.len() == i * cols + j,
                (i + 1) * cols == i * cols + cols,
                forall|a: int, b: int|
                    0 <= a < i && 0 <= b < cols ==> (#[trigger] rows@[a]@[b]) == flat@[a * cols
                        + b],
                forall|b: int| 0 <= b < j ==> (#[trigger] row@[b]) == flat@[i * cols + b],
            decreases cols - j,
        {
            let ghost before = flat@;
            flat.push(row[j]);
            proof {
                assert forall|a: int, b: int| 0 <= a < i && 0 <= b < cols implies (#[trigger] rows@[a]@[b]) == flat@[a * cols + b] by {
                    lemma_row_index(a, b, i as int, cols as int);
                    lemma_row_end(a, i as int, cols as int);
                    assert(flat@[a * cols + b] == before[a * cols + b]);
                }
            }
            j += 1;
        }
        proof {
            assert forall|a: int, b: int| 0 <= a < i + 1 && 0 <= b < cols implies (#[trigger] rows@[a]@[b]) == flat@[a * cols + b] by {
                if a == i {
                    assert(row@[b] == flat@[i * cols + b]);
                }
            }
        }
        i += 1;
    }
    flat
}

/// Derivative buffers are well shaped: one slot per parameter block, and each
/// present buffer holds `num_residuals` rows of that block's size.
pub open spec fn jacobian_buffers_fit<T>(
    jacobians: Seq<Option<Vec<T>>>,
    parameter_sizes: Seq<usize>,
    num_residuals: nat,
) -> bool {
    &&& jacobians.len() == parameter_sizes.len()
    &&& forall|k: int|
        0 <= k < jacobians.len() ==> (#[trigger] jacobians[k] matches Some(f) ==> f@.len()
            == num_residuals * parameter_sizes[k])
}

/// `views` is what a cost function sees of the derivative buffers `jacobians`:
/// nothing where the whole array is absent; otherwise one slot per parameter
/// block, absent exactly where that block's buffer is, and present ones split
/// into rows.
pub open spec fn jacobian_views_of<T>(
    views: Option<Vec<Option<Vec<Vec<T>>>>>,
    jacobians: Option<Vec<Option<Vec<T>>>>,
    parameter_sizes: Seq<usize>,
    num_residuals: nat,
) -> bool {
    match jacobians {
        None => views is None,
        Some(js) => match views {
            None => false,
            Some(vs) => {
                &&& vs@.len() == js@.len()
                &&& forall|k: int|
                    0 <= k < vs@.len() ==> match (#[trigger] vs@[k], js@[k]) {
                        (None, None) => true,
                        (Some(rows), Some(flat)) => is_row_major(
                            rows@,
                            flat@,
                            num_residuals,
                            parameter_sizes[k] as nat,
                        ),
                        _ => false,
                    }
            },
        },
    }
}

/// Builds what a cost function sees of the derivative buffers handed over
/// by the solver.
pub fn jacobian_rows<T: Copy>(
    jacobians: &Option<Vec<Option<Vec<T>>>>,
    parameter_sizes: &[usize],
    num_residuals: usize,
) -> (r: Option<Vec<Option<Vec<Vec<T>>>>>)
    requires
        jacobians matches Some(js) ==> jacobian_buffers_fit(
            js@,
            parameter_sizes@,
            num_residuals as nat,
        ),
    ensures
        jacobian_views_of(r, *jacobians, parameter_sizes@, num_residuals as nat),
{
    match jacobians {
        None => None,
        Some(js) => {
            let mut views: Vec<Option<Vec<Vec<T>>>> = Vec::new();
            let mut k: usize = 0;
            while k < js.len()
                invariant
                    jacobian_buffers_fit(js@, parameter_sizes@, num_residuals as nat),
                    k <= js@.len(),
                    views@.len() == k,
                    forall|a: int|
                        0 <= a < k ==> match (#[trigger] views@[a], js@[a]) {
                            (None, None) => true,
                            (Some(rows), Some(flat)) => is_row_major(
                                rows@,
                                flat@,
                                num_residuals as nat,
                                parameter_sizes@[a] as nat,
                            ),
                            _ => false,
                        },
                decreases js@.len() - k,
            {
                match &js[k] {
                    None => views.push(None),
                    Some(flat) => {
                        let rows = derivative_rows(flat.as_slice(), parameter_sizes[k], num_residuals);
                        views.push(Some(rows));
                    },
                }
                k += 1;
            }
            Some(views)
        },
    }
}

/// Splitting a derivative buffer into rows and writing the rows back gives
/// the buffer unchanged.
pub proof fn lemma_rows_round_trip<T>(rows: Seq<Vec<T>>, flat: Seq<T>, back: Seq<T>, n: nat, cols: nat)
    requires
        is_row_major(rows, flat, n, cols),
        is_row_major(rows, back, n, cols),
    ensures
        back == flat,
{
    assert forall|x: int| 0 <= x < flat.len() implies back[x] == flat[x] by {
        let i = x / (cols as int);
        let j = x % (cols as int);
        assert(cols > 0) by (nonlinear_arith)
            requires
                0 <= x < n * cols,
        ;
        assert(x == i * cols + j && 0 <= j < cols) by (nonlinear_arith)
            requires
                cols > 0,
                i == x / (cols as int),
                j == x % (cols as int),
        ;
        assert(0 <= i < n) by (nonlinear_arith)
            requires
                x == i * cols + j,
                0 <= j < cols,
                0 <= x < n * cols,
        ;
        assert(rows[i]@[j] == flat[i * cols + j]);
    }
    assert(back =~= flat);
}

} // verus!
