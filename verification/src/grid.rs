//! Arithmetic of tables that are laid out row by row.

use vstd::arithmetic::div_mod::{
    lemma_div_denominator, lemma_fundamental_div_mod, lemma_fundamental_div_mod_converse,
};
use vstd::prelude::*;

verus! {

/// Row and column of a position in a `k` by `k` table laid out row by row.
pub proof fn lemma_pair_index(k: int, row: int, col: int)
    requires
        0 <= row < k,
        0 <= col < k,
    ensures
        0 <= row * k + col < k * k,
        (row * k + col) / k == row,
        (row * k + col) % k == col,
{
    lemma_fundamental_div_mod_converse(row * k + col, k, row, col);
    assert(row * k + col < k * k) by (nonlinear_arith)
        requires
            0 <= row < k,
            0 <= col < k,
    ;
    assert(0 <= row * k) by (nonlinear_arith)
        requires
            0 <= row,
            0 < k,
    ;
}

/// Plane, row and column of a position in a `k` by `k` by `k` table.
pub proof fn lemma_triple_index(k: int, plane: int, row: int, col: int)
    requires
        0 <= plane < k,
        0 <= row < k,
        0 <= col < k,
    ensures
        0 <= plane * (k * k) + row * k + col < k * k * k,
        (plane * (k * k) + row * k + col) / (k * k) == plane,
        ((plane * (k * k) + row * k + col) / k) % k == row,
        (plane * (k * k) + row * k + col) % k == col,
{
    let j = plane * (k * k) + row * k + col;
    lemma_pair_index(k, row, col);
    assert(0 < k * k) by (nonlinear_arith)
        requires
            0 < k,
    ;
    lemma_fundamental_div_mod_converse(j, k * k, plane, row * k + col);
    assert(j == (plane * k + row) * k + col) by (nonlinear_arith)
        requires
            j == plane * (k * k) + row * k + col,
    ;
    lemma_fundamental_div_mod_converse(j, k, plane * k + row, col);
    lemma_pair_index(k, plane, row);
    assert(0 <= plane * (k * k)) by (nonlinear_arith)
        requires
            0 <= plane,
            0 < k,
    ;
    assert(j < k * k * k) by (nonlinear_arith)
        requires
            j == plane * (k * k) + row * k + col,
            0 <= plane < k,
            row * k + col < k * k,
    ;
}

/// Every position below `k * k` has a row and a column below `k`.
pub proof fn lemma_pair_position(k: int, j: int)
    requires
        0 < k,
        0 <= j < k * k,
    ensures
        0 <= j / k < k,
        0 <= j % k < k,
        j == (j / k) * k + j % k,
{
    lemma_fundamental_div_mod(j, k);
    assert(k * (j / k) == (j / k) * k) by (nonlinear_arith);
    assert(0 <= j / k < k) by (nonlinear_arith)
        requires
            0 < k,
            0 <= j < k * k,
            j == (j / k) * k + j % k,
            0 <= j % k < k,
    ;
}

/// Every position below `k * k * k` has a plane, a row and a column below `k`.
pub proof fn lemma_triple_position(k: int, j: int)
    requires
        0 < k,
        0 <= j < k * k * k,
    ensures
        0 <= j / (k * k) < k,
        0 <= (j / k) % k < k,
        0 <= j % k < k,
        j == (j / (k * k)) * (k * k) + ((j / k) % k) * k + j % k,
{
    let q = j / k;
    lemma_fundamental_div_mod(j, k);
    assert(k * q == q * k) by (nonlinear_arith);
    assert(0 <= q < k * k) by (nonlinear_arith)
        requires
            0 < k,
            0 <= j < k * k * k,
            j == q * k + j % k,
            0 <= j % k < k,
    ;
    lemma_pair_position(k, q);
    lemma_div_denominator(j, k, k);
    assert(j / (k * k) == q / k);
    assert(j == (q / k) * (k * k) + (q % k) * k + j % k) by (nonlinear_arith)
        requires
            j == q * k + j % k,
            q == (q / k) * k + q % k,
    ;
}

} // verus!
