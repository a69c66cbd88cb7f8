//! Scanline order of flat pixel sequences, and the adapter that reverses it.

use vstd::arithmetic::div_mod::{
    lemma_div_multiples_vanish, lemma_fundamental_div_mod, lemma_fundamental_div_mod_converse,
};
use vstd::prelude::*;

verus! {

/// Which stored row of a structured buffer holds the top of the image.
///
/// Texture memory stores the bottom row first.
#[derive(Clone, Copy, Debug, PartialEq, Eq, Structural)]
pub enum RowOrder {
    TopFirst,
    BottomFirst,
}

/// The sequence cut into consecutive rows of `w` elements (no rows for `w == 0`).
pub open spec fn chunk_rows<T>(s: Seq<T>, w: nat) -> Seq<Seq<T>> {
    if w == 0 {
        Seq::empty()
    } else {
        Seq::new(s.len() / w, |i: int| s.subrange(i * w, i * w + w))
    }
}

/// Every row holds exactly `w` elements.
pub open spec fn rows_have_width<T>(rows: Seq<Seq<T>>, w: nat) -> bool {
    forall|i: int| 0 <= i < rows.len() ==> (#[trigger] rows[i]).len() == w
}

/// The sequence with its rows of `w` elements in reverse order, each row left as it is.
pub open spec fn flip_rows_spec<T>(s: Seq<T>, w: nat) -> Seq<T> {
    chunk_rows(s, w).reverse().flatten()
}

/// Rows laid out in texture memory order: bottom row first.
pub open spec fn flatten_rows<T>(rows: Seq<Seq<T>>, order: RowOrder) -> Seq<T> {
    match order {
        RowOrder::TopFirst => rows.reverse().flatten(),
        RowOrder::BottomFirst => rows.flatten(),
    }
}

/// Rows of `w` elements read back from texture memory order into storage order.
pub open spec fn unflatten_rows<T>(s: Seq<T>, w: nat, order: RowOrder) -> Seq<Seq<T>> {
    match order {
        RowOrder::TopFirst => chunk_rows(s, w).reverse(),
        RowOrder::BottomFirst => chunk_rows(s, w),
    }
}

/// Element `j` of row `i` sits at `i * w + j` of the flattened rows.
pub proof fn lemma_flatten_index<T>(rows: Seq<Seq<T>>, w: nat)
    requires
        rows_have_width(rows, w),
    ensures
        rows.flatten().len() == rows.len() * w,
        forall|i: int, j: int|
            0 <= i < rows.len() && 0 <= j < w ==> #[trigger] rows.flatten()[i * w + j]
                == rows[i][j],
    decreases rows.len(),
{
    if rows.len() > 0 {
        let rest = rows.drop_first();
        assert(rows_have_width(rest, w)) by {
            assert forall|i: int| 0 <= i < rest.len() implies (#[trigger] rest[i]).len() == w by {
                assert(rest[i] == rows[i + 1]);
            }
        }
        lemma_flatten_index(rest, w);
        assert(rows.flatten() == rows[0] + rest.flatten());
        assert(rows.len() * w == w + rest.len() * w) by (nonlinear_arith)
            requires
                rest.len() == rows.len() - 1,
        ;
        assert forall|i: int, j: int|
            0 <= i < rows.len() && 0 <= j < w implies #[trigger] rows.flatten()[i * w + j]
                == rows[i][j] by {
            if i > 0 {
                let k = (i - 1) * w + j;
                assert(i * w + j == w + k) by (nonlinear_arith)
                    requires
                        k == (i - 1) * w + j,
                ;
                assert(k >= 0) by (nonlinear_arith)
                    requires
                        i >= 1,
                        j >= 0,
                        k == (i - 1) * w + j,
                ;
                assert(k < rest.len() * w) by (nonlinear_arith)
                    requires
                        i - 1 < rest.len(),
                        j < w,
                        k == (i - 1) * w + j,
                ;
                assert(rest.flatten()[k] == rest[i - 1][j]);
                assert(rows.flatten()[w + k] == rest.flatten()[k]);
            } else {
                assert(i * w + j == j) by (nonlinear_arith)
                    requires
                        i == 0,
                ;
            }
        }
    }
}

/// The rows of a chunked sequence all have the chunk width.
pub proof fn lemma_chunk_rows_width<T>(s: Seq<T>, w: nat)
    requires
        w > 0,
    ensures
        rows_have_width(chunk_rows(s, w), w),
        rows_have_width(chunk_rows(s, w).reverse(), w),
        chunk_rows(s, w).len() * w <= s.len(),
{
    let n = s.len() / w;
    lemma_fundamental_div_mod(s.len() as int, w as int);
    assert forall|i: int| 0 <= i < n implies (#[trigger] chunk_rows(s, w)[i]).len() == w by {
        assert(i * w + w <= n * w) by (nonlinear_arith)
            requires
                i < n,
        ;
        assert(0 <= i * w) by (nonlinear_arith)
            requires
                i >= 0,
        ;
    }
    assert(n * w == w * n) by (nonlinear_arith);
}

/// Chunking flattened rows of width `w` gives the rows back.
pub proof fn lemma_chunk_flatten<T>(rows: Seq<Seq<T>>, w: nat)
    requires
        w > 0,
        rows_have_width(rows, w),
    ensures
        chunk_rows(rows.flatten(), w) == rows,
{
    lemma_flatten_index(rows, w);
    let n = rows.len();
    let c = chunk_rows(rows.flatten(), w);
    assert(n * w == w * n) by (nonlinear_arith);
    lemma_div_multiples_vanish(n as int, w as int);
    assert forall|i: int| 0 <= i < n implies #[trigger] c[i] == rows[i] by {
        assert(i * w + w <= n * w) by (nonlinear_arith)
            requires
                i < n,
        ;
        assert(0 <= i * w) by (nonlinear_arith)
            requires
                i >= 0,
        ;
        assert forall|j: int| 0 <= j < w implies #[trigger] c[i][j] == rows[i][j] by {
            assert(rows.flatten()[i * w + j] == rows[i][j]);
        }
        assert(c[i] =~= rows[i]);
    }
    assert(c =~= rows);
}

/// Flattening the chunks of a sequence whose length `w` divides gives the sequence back.
pub proof fn lemma_flatten_chunk<T>(s: Seq<T>, w: nat)
    requires
        w > 0,
        s.len() % w == 0,
    ensures
        chunk_rows(s, w).flatten() == s,
{
    let c = chunk_rows(s, w);
    lemma_chunk_rows_width(s, w);
    lemma_flatten_index(c, w);
    lemma_fundamental_div_mod(s.len() as int, w as int);
    assert(c.len() * w == w * (s.len() / w)) by (nonlinear_arith)
        requires
            c.len() == s.len() / w,
    ;
    assert forall|k: int| 0 <= k < s.len() implies #[trigger] c.flatten()[k] == s[k] by {
        let q = k / (w as int);
        let r = k % (w as int);
        lemma_fundamental_div_mod(k, w as int);
        assert(k == q * w + r) by (nonlinear_arith)
            requires
                k == w * q + r,
        ;
        assert(q < c.len()) by (nonlinear_arith)
            requires
                k == q * w + r,
                0 <= r,
                k < c.len() * w,
                w > 0,
        ;
        assert(q >= 0) by (nonlinear_arith)
            requires
                k == q * w + r,
                r < w,
                k >= 0,
                w > 0,
        ;
        assert(c.flatten()[q * w + r] == c[q][r]);
        assert(0 <= q * w) by (nonlinear_arith)
            requires
                q >= 0,
                w > 0,
        ;
        assert(q * w + w <= c.len() * w) by (nonlinear_arith)
            requires
                q < c.len(),
        ;
        assert(c[q] == s.subrange(q * w, q * w + w));
        assert(c[q][r] == s[q * w + r]);
    }
    assert(c.flatten() =~= s);
}

/// Reversing the rows twice restores the original sequence.
pub proof fn lemma_flip_rows_involution<T>(s: Seq<T>, w: nat)
    requires
        w > 0,
        s.len() % w == 0,
    ensures
        flip_rows_spec(flip_rows_spec(s, w), w) == s,
{
    let c = chunk_rows(s, w);
    lemma_chunk_rows_width(s, w);
    lemma_chunk_flatten(c.reverse(), w);
    assert(c.reverse().reverse() =~= c);
    lemma_flatten_chunk(s, w);
}

/// Reversing the order of rows keeps their widths.
pub proof fn lemma_reverse_width<T>(rows: Seq<Seq<T>>, w: nat)
    requires
        rows_have_width(rows, w),
    ensures
        rows_have_width(rows.reverse(), w),
{
    assert forall|i: int| 0 <= i < rows.len() implies (#[trigger] rows.reverse()[i]).len() == w by {
        assert(rows.reverse()[i] == rows[rows.len() - 1 - i]);
    }
}

/// Rows of `w` elements laid out in one row order and read back in the same
/// order are the original rows.
pub proof fn lemma_rows_round_trip<T>(rows: Seq<Seq<T>>, w: nat, order: RowOrder)
    requires
        w > 0,
        rows_have_width(rows, w),
    ensures
        unflatten_rows(flatten_rows(rows, order), w, order) == rows,
{
    lemma_reverse_width(rows, w);
    lemma_chunk_flatten(rows, w);
    lemma_chunk_flatten(rows.reverse(), w);
    assert(rows.reverse().reverse() =~= rows);
}

/// Rows of `w` elements laid out in one row order and read back in the other
/// come back in reverse order.
pub proof fn lemma_rows_order_mismatch<T>(rows: Seq<Seq<T>>, w: nat)
    requires
        w > 0,
        rows_have_width(rows, w),
    ensures
        unflatten_rows(flatten_rows(rows, RowOrder::TopFirst), w, RowOrder::BottomFirst)
            == rows.reverse(),
        unflatten_rows(flatten_rows(rows, RowOrder::BottomFirst), w, RowOrder::TopFirst)
            == rows.reverse(),
{
    lemma_reverse_width(rows, w);
    lemma_chunk_flatten(rows, w);
    lemma_chunk_flatten(rows.reverse(), w);
}

/// The flattened rows of `w` elements hold a whole number of rows.
pub proof fn lemma_flatten_rows_len<T>(rows: Seq<Seq<T>>, w: nat, order: RowOrder)
    requires
        rows_have_width(rows, w),
    ensures
        flatten_rows(rows, order).len() == rows.len() * w,
{
    lemma_reverse_width(rows, w);
    lemma_flatten_index(rows, w);
    lemma_flatten_index(rows.reverse(), w);
}

/// Copies `data` with its rows of `row_len` elements in reverse order.
///
/// The elements inside each row keep their order; applying it twice gives `data` back.
pub fn flip_rows<P: Copy>(data: &[P], row_len: usize) -> (r: Vec<P>)
    requires
        row_len > 0,
        data@.len() % (row_len as nat) == 0,
    ensures
        r@ == flip_rows_spec(data@, row_len as nat),
{
    let ghost w = row_len as nat;
    let ghost rows = chunk_rows(data@, w).reverse();
    let n: usize = data.len() / row_len;
    proof {
        lemma_chunk_rows_width(data@, w);
    }
    let mut r: Vec<P> = Vec::new();
    let mut i: usize = 0;
    while i < n
        invariant
            w == row_len,
            w > 0,
            n == data@.len() / w,
            rows == chunk_rows(data@, w).reverse(),
            rows.len() == n,
            n * w <= data@.len(),
            data@.len() == data.len(),
            i <= n,
            r@ == rows.take(i as int).flatten(),
        decreases n - i,
    {
        let src: usize = n - 1 - i;
        proof {
            assert(src * w + w <= n * w) by (nonlinear_arith)
                requires
                    src < n,
            ;
        }
        let start: usize = src * row_len;
        let mut j: usize = 0;
        while j < row_len
            invariant
                w == row_len,
                i < n,
                src == n - 1 - i,
                start == src * w,
                start + w <= data@.len(),
                data@.len() == data.len(),
                j <= row_len,
                r@ == rows.take(i as int).flatten() + data@.subrange(start as int, start + j),
            decreases row_len - j,
        {
            r.push(data[start + j]);
            proof {
                assert(data@.subrange(start as int, start + j + 1) =~= data@.subrange(
                    start as int,
                    start + j,
                ).push(data@[start + j]));
            }
            j = j + 1;
        }
        proof {
            assert(rows[i as int] == data@.subrange(start as int, start + w));
            assert(rows.take(i + 1) =~= rows.take(i as int).push(rows[i as int]));
            rows.take(i as int).lemma_flatten_push(rows[i as int]);
        }
        i = i + 1;
    }
    proof {
        assert(rows.take(n as int) =~= rows);
    }
    r
}

} // verus!
