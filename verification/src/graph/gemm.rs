//! What the calls of cuBLAS compute, in terms of the row-major matrices that the
//! tensors hold.
use vstd::prelude::*;

use super::cuda_exec::{
    gemm_matmul_spec, gemm_weight_bwd_spec, held, meta_u32_spec, DispatchError, GemmCall, GemmOp,
};
use super::BindingView;
use crate::backend::Backend;
use crate::bytes::ByteOrder;

verus! {

/// The place, in the first operand, of the `l`th factor of the element in row
/// `i` of a column-major product.
pub open spec fn a_index<B: Backend>(call: GemmCall<B>, i: int, l: int) -> int {
    match call.transa {
        GemmOp::NoTrans => i + l * call.lda,
        GemmOp::Trans => l + i * call.lda,
    }
}

/// The place, in the second operand, of the `l`th factor of the element in
/// column `j` of a column-major product.
pub open spec fn b_index<B: Backend>(call: GemmCall<B>, l: int, j: int) -> int {
    match call.transb {
        GemmOp::NoTrans => l + j * call.ldb,
        GemmOp::Trans => j + l * call.ldb,
    }
}

/// The place of the element in row `i` and column `j` of a column-major product.
pub open spec fn c_index<B: Backend>(call: GemmCall<B>, i: int, j: int) -> int {
    i + j * call.ldc
}

/// The place of the element in row `row` and column `col` of a row-major matrix
/// of this width.
pub open spec fn row_major(row: int, col: int, width: int) -> int {
    row * width + col
}

proof fn lemma_row_major_bounds(row: int, col: int, height: int, width: int)
    requires
        0 <= row < height,
        0 <= col < width,
    ensures
        0 <= row_major(row, col, width) < height * width,
{
    assert(0 <= row * width) by (nonlinear_arith)
        requires
            0 <= row,
            0 < width,
    ;
    assert(row * width + width <= height * width) by (nonlinear_arith)
        requires
            row + 1 <= height,
            0 < width,
    ;
}

/// The call for `C = A x op(B)` computes the row-major product: the element of
/// `C` in row `row` and column `col` is written at its row-major place, and its
/// `l`th term is the product of `A[row, l]` with `B[l, col]`, or with
/// `B[col, l]` where `B` is transposed. All these places lie in the matrices,
/// and what `C` held before does not count.
pub proof fn law_matmul_is_row_major<B: Backend>(
    order: ByteOrder,
    bindings: Seq<BindingView<B>>,
    transpose_b: bool,
    call: GemmCall<B>,
    dims: Seq<u32>,
    row: int,
    col: int,
    l: int,
)
    requires
        gemm_matmul_spec(order, bindings, transpose_b) == Ok::<GemmCall<B>, DispatchError>(call),
        meta_u32_spec(order, held(bindings, 3), 3) == Ok::<Seq<u32>, DispatchError>(dims),
        dims[0] <= i32::MAX,
        dims[1] <= i32::MAX,
        dims[2] <= i32::MAX,
        0 <= row < dims[0],
        0 <= col < dims[1],
        0 <= l < dims[2],
    ensures
        call.m == dims[1],
        call.n == dims[0],
        call.k == dims[2],
        call.alpha == 1,
        call.beta == 0,
        call.b == held(bindings, 0).slice,
        call.a == held(bindings, 1).slice,
        call.c == held(bindings, 2).slice,
        c_index(call, col, row) == row_major(row, col, dims[1] as int),
        b_index(call, l, row) == row_major(row, l, dims[2] as int),
        !transpose_b ==> a_index(call, col, l) == row_major(l, col, dims[1] as int),
        transpose_b ==> a_index(call, col, l) == row_major(col, l, dims[2] as int),
        0 <= c_index(call, col, row) < dims[0] * dims[1],
        0 <= b_index(call, l, row) < dims[0] * dims[2],
        !transpose_b ==> 0 <= a_index(call, col, l) < dims[2] * dims[1],
        transpose_b ==> 0 <= a_index(call, col, l) < dims[1] * dims[2],
{
    lemma_row_major_bounds(row, col, dims[0] as int, dims[1] as int);
    lemma_row_major_bounds(row, l, dims[0] as int, dims[2] as int);
    lemma_row_major_bounds(l, col, dims[2] as int, dims[1] as int);
    lemma_row_major_bounds(col, l, dims[1] as int, dims[2] as int);
}

/// The call for `dB += A^T x dC` computes the row-major product: the element of
/// `dB` in row `row` and column `col` is at its row-major place, and its `l`th
/// term is the product of `A[l, row]` with `dC[l, col]`. All these places lie in
/// the matrices, and the sum is added to what `dB` held before.
pub proof fn law_weight_bwd_is_row_major<B: Backend>(
    order: ByteOrder,
    bindings: Seq<BindingView<B>>,
    call: GemmCall<B>,
    dims: Seq<u32>,
    row: int,
    col: int,
    l: int,
)
    requires
        gemm_weight_bwd_spec(order, bindings) == Ok::<GemmCall<B>, DispatchError>(call),
        meta_u32_spec(order, held(bindings, 3), 3) == Ok::<Seq<u32>, DispatchError>(dims),
        dims[0] <= i32::MAX,
        dims[1] <= i32::MAX,
        dims[2] <= i32::MAX,
        0 <= row < dims[2],
        0 <= col < dims[1],
        0 <= l < dims[0],
    ensures
        call.m == dims[1],
        call.n == dims[2],
        call.k == dims[0],
        call.alpha == 1,
        call.beta == 1,
        call.b == held(bindings, 0).slice,
        call.a == held(bindings, 1).slice,
        call.c == held(bindings, 2).slice,
        c_index(call, col, row) == row_major(row, col, dims[1] as int),
        b_index(call, l, row) == row_major(l, row, dims[2] as int),
        a_index(call, col, l) == row_major(l, col, dims[1] as int),
        0 <= c_index(call, col, row) < dims[2] * dims[1],
        0 <= b_index(call, l, row) < dims[0] * dims[2],
        0 <= a_index(call, col, l) < dims[0] * dims[1],
{
    lemma_row_major_bounds(row, col, dims[2] as int, dims[1] as int);
    lemma_row_major_bounds(l, row, dims[0] as int, dims[2] as int);
    lemma_row_major_bounds(l, col, dims[0] as int, dims[1] as int);
}

/// The sum of `f(l)` over `0 <= l < n`.
pub open spec fn sum(n: nat, f: spec_fn(int) -> int) -> int
    decreases n,
{
    if n == 0 {
        0
    } else {
        sum((n - 1) as nat, f) + f(n - 1)
    }
}

pub(crate) proof fn lemma_sums_agree(n: nat, f: spec_fn(int) -> int, g: spec_fn(int) -> int)
    requires
        forall|l: int| 0 <= l < n ==> #[trigger] f(l) == g(l),
    ensures
        sum(n, f) == sum(n, g),
    decreases n,
{
    if n > 0 {
        lemma_sums_agree((n - 1) as nat, f, g);
        assert(f(n - 1) == g(n - 1));
    }
}

/// The element in row `i` and column `j` that the call leaves in its column-major
/// result, in exact arithmetic.
pub open spec fn gemm_element<B: Backend>(
    call: GemmCall<B>,
    a: Seq<int>,
    b: Seq<int>,
    c: Seq<int>,
    i: int,
    j: int,
) -> int {
    call.alpha * sum(call.k as nat, |l: int| a[a_index(call, i, l)] * b[b_index(call, l, j)])
        + call.beta * c[c_index(call, i, j)]
}

/// The place, in row-major `B`, of the element in row `l` and column `col` of
/// `op(B)`.
pub open spec fn op_b_index(dims: Seq<u32>, transpose_b: bool, l: int, col: int) -> int {
    if transpose_b {
        row_major(col, l, dims[2] as int)
    } else {
        row_major(l, col, dims[1] as int)
    }
}

/// In exact arithmetic the call for `C = A x op(B)` leaves, at each row-major
/// place of `C`, the sum of the products of that row of `A` and that column of
/// `op(B)`.
pub proof fn law_matmul_computes_the_product<B: Backend>(
    order: ByteOrder,
    bindings: Seq<BindingView<B>>,
    transpose_b: bool,
    call: GemmCall<B>,
    dims: Seq<u32>,
    a: Seq<int>,
    b: Seq<int>,
    c: Seq<int>,
    row: int,
    col: int,
)
    requires
        gemm_matmul_spec(order, bindings, transpose_b) == Ok::<GemmCall<B>, DispatchError>(call),
        meta_u32_spec(order, held(bindings, 3), 3) == Ok::<Seq<u32>, DispatchError>(dims),
        dims[0] <= i32::MAX,
        dims[1] <= i32::MAX,
        dims[2] <= i32::MAX,
        0 <= row < dims[0],
        0 <= col < dims[1],
    ensures
        c_index(call, col, row) == row_major(row, col, dims[1] as int),
        gemm_element(call, b, a, c, col, row) == sum(
            dims[2] as nat,
            |l: int|
                a[row_major(row, l, dims[2] as int)] * b[op_b_index(dims, transpose_b, l, col)],
        ),
{
    let f = |l: int| b[a_index(call, col, l)] * a[b_index(call, l, row)];
    let g = |l: int|
        a[row_major(row, l, dims[2] as int)] * b[op_b_index(dims, transpose_b, l, col)];
    assert forall|l: int| 0 <= l < dims[2] implies #[trigger] f(l) == g(l) by {
        law_matmul_is_row_major(order, bindings, transpose_b, call, dims, row, col, l);
        let x = b[a_index(call, col, l)];
        let y = a[b_index(call, l, row)];
        assert(x * y == y * x) by (nonlinear_arith);
    }
    lemma_sums_agree(dims[2] as nat, f, g);
    let before = c[c_index(call, col, row)];
    assert(call.beta * before == 0) by (nonlinear_arith)
        requires
            call.beta == 0,
    ;
}

/// In exact arithmetic the call for `dB += A^T x dC` adds, at each row-major
/// place of `dB`, the sum of the products of that column of `A` and that column
/// of `dC`.
pub proof fn law_weight_bwd_accumulates_the_product<B: Backend>(
    order: ByteOrder,
    bindings: Seq<BindingView<B>>,
    call: GemmCall<B>,
    dims: Seq<u32>,
    a: Seq<int>,
    dc: Seq<int>,
    db: Seq<int>,
    row: int,
    col: int,
)
    requires
        gemm_weight_bwd_spec(order, bindings) == Ok::<GemmCall<B>, DispatchError>(call),
        meta_u32_spec(order, held(bindings, 3), 3) == Ok::<Seq<u32>, DispatchError>(dims),
        dims[0] <= i32::MAX,
        dims[1] <= i32::MAX,
        dims[2] <= i32::MAX,
        0 <= row < dims[2],
        0 <= col < dims[1],
    ensures
        c_index(call, col, row) == row_major(row, col, dims[1] as int),
        gemm_element(call, dc, a, db, col, row) == db[row_major(row, col, dims[1] as int)] + sum(
            dims[0] as nat,
            |l: int|
                a[row_major(l, row, dims[2] as int)] * dc[row_major(l, col, dims[1] as int)],
        ),
{
    let f = |l: int| dc[a_index(call, col, l)] * a[b_index(call, l, row)];
    let g = |l: int| a[row_major(l, row, dims[2] as int)] * dc[row_major(l, col, dims[1] as int)];
    assert forall|l: int| 0 <= l < dims[0] implies #[trigger] f(l) == g(l) by {
        law_weight_bwd_is_row_major(order, bindings, call, dims, row, col, l);
        let x = dc[a_index(call, col, l)];
        let y = a[b_index(call, l, row)];
        assert(x * y == y * x) by (nonlinear_arith);
    }
    lemma_sums_agree(dims[0] as nat, f, g);
}

} // verus!
