use vstd::arithmetic::div_mod::lemma_fundamental_div_mod_converse;
use vstd::arithmetic::mul::lemma_mul_inequality;
use vstd::prelude::*;
use vstd::slice::slice_to_vec;

verus! {

/// Row alignment, in bytes, that the device asks of a buffer a texture is copied into.
pub const COPY_BYTES_PER_ROW_ALIGNMENT: usize = 256;

/// Bytes added to a row of `stride` bytes to reach the next multiple of `align`.
pub open spec fn row_padding(stride: int, align: int) -> int {
    (align - stride % align) % align
}

/// `stride` rounded up to the row alignment.
pub open spec fn padded_row(stride: int) -> int {
    stride + row_padding(stride, COPY_BYTES_PER_ROW_ALIGNMENT as int)
}

/// The host image read out of a staging buffer whose rows are `padded` bytes
/// apart: the first `stride` bytes of each of its `height` rows, back to back.
pub open spec fn destriped(staging: Seq<u8>, padded: int, stride: int, height: int) -> Seq<u8> {
    Seq::new((height * stride) as nat, |i: int| staging[(i / stride) * padded + i % stride])
}

/// Rounds a row stride up to the device's row alignment.
pub fn padded_stride(stride: usize) -> (r: usize)
    requires
        stride + COPY_BYTES_PER_ROW_ALIGNMENT <= usize::MAX,
    ensures
        r == padded_row(stride as int),
        r >= stride,
        r < stride + COPY_BYTES_PER_ROW_ALIGNMENT,
        r % COPY_BYTES_PER_ROW_ALIGNMENT == 0,
{
    let align = COPY_BYTES_PER_ROW_ALIGNMENT;
    let padding = (align - stride % align) % align;
    stride + padding
}

/// A padded stride is never shorter than the row it holds and is a multiple of the alignment.
pub proof fn lemma_padded_row_aligned(stride: int)
    requires
        1 <= stride <= 32768,
    ensures
        padded_row(stride) >= stride,
        padded_row(stride) % (COPY_BYTES_PER_ROW_ALIGNMENT as int) == 0,
{
}

/// Byte `c` of row `r` in the host image is byte `c` of row `r` in the staging buffer:
/// the trailing padding of a staging row never reaches the image.
pub proof fn lemma_destriped_rows(staging: Seq<u8>, padded: int, stride: int, height: int, r: int, c: int)
    requires
        0 <= r < height,
        0 <= c < stride,
    ensures
        r * stride + c < destriped(staging, padded, stride, height).len(),
        destriped(staging, padded, stride, height)[r * stride + c] == staging[r * padded + c],
{
    lemma_fundamental_div_mod_converse(r * stride + c, stride, r, c);
    lemma_mul_inequality(r + 1, height, stride);
    assert((r + 1) * stride == r * stride + stride) by (nonlinear_arith);
}

/// With no padding the host image is the staging buffer itself.
pub proof fn lemma_destriped_unpadded(staging: Seq<u8>, stride: int, height: int)
    requires
        stride >= 1,
        height >= 0,
        staging.len() == height * stride,
    ensures
        destriped(staging, stride, stride, height) == staging,
{
    let d = destriped(staging, stride, stride, height);
    assert forall|i: int| 0 <= i < d.len() implies d[i] == staging[i] by {
        vstd::arithmetic::div_mod::lemma_fundamental_div_mod(i, stride);
        assert(stride * (i / stride) == (i / stride) * stride) by (nonlinear_arith);
    }
    assert(d =~= staging);
}

/// Copies the rows of a staging buffer into a tightly packed host image,
/// dropping the padding at the end of each row.
pub fn destripe(staging: &[u8], padded: usize, stride: usize, height: usize) -> (r: Vec<u8>)
    requires
        stride <= padded,
        staging@.len() == padded * height,
    ensures
        r@ == destriped(staging@, padded as int, stride as int, height as int),
        padded == stride ==> r@ == staging@,
{
    if padded == stride {
        if stride == 0 {
            let empty: Vec<u8> = Vec::new();
            assert(padded * height == 0) by (nonlinear_arith)
                requires padded == 0;
            assert(staging@ =~= empty@);
            assert(empty@ =~= destriped(staging@, padded as int, stride as int, height as int));
            return empty;
        }
        proof {
            assert(padded * height == height * stride) by (nonlinear_arith)
                requires padded == stride;
            lemma_destriped_unpadded(staging@, stride as int, height as int);
        }
        return slice_to_vec(staging);
    }
    let total = staging.len();
    let ghost target = destriped(staging@, padded as int, stride as int, height as int);
    let mut out: Vec<u8> = Vec::new();
    let mut row: usize = 0;
    while row < height
        invariant
            0 < padded,
            stride < padded,
            row <= height,
            staging@.len() == padded * height,
            total == staging@.len(),
            target == destriped(staging@, padded as int, stride as int, height as int),
            out@.len() == row * stride,
            target.len() == height * stride,
            out@.len() <= target.len(),
            forall|i: int| 0 <= i < out@.len() ==> out@[i] == target[i],
        decreases height - row,
    {
        proof {
            lemma_mul_inequality(row as int + 1, height as int, padded as int);
            assert((row as int + 1) * padded == row * padded + padded) by (nonlinear_arith);
            assert((row as int + 1) * stride == row * stride + stride) by (nonlinear_arith);
            lemma_mul_inequality(row as int + 1, height as int, stride as int);
            assert(padded * height == height * padded) by (nonlinear_arith);
        }
        let start = row * padded;
        let ghost before = out@;
        out.extend_from_slice(&staging[start..start + stride]);
        proof {
            assert forall|i: int| 0 <= i < out@.len() implies out@[i] == target[i] by {
                if i >= before.len() {
                    let c = i - row * stride;
                    lemma_destriped_rows(staging@, padded as int, stride as int, height as int, row as int, c);
                }
            }
        }
        row = row + 1;
    }
    assert(out@ =~= target);
    out
}

} // verus!
