//! Batching: samples are laid side by side, one row each, in the shared
//! activation and target buffers of a training step.
use vstd::prelude::*;

verus! {

/// The buffer after row `row_index` of width `row.len()` is overwritten by
/// `row`, everything else unchanged.
pub open spec fn with_row<T>(buffer: Seq<T>, row_index: int, row: Seq<T>) -> Seq<T> {
    let start = row_index * row.len();
    buffer.subrange(0, start) + row + buffer.subrange(start + row.len(), buffer.len() as int)
}

/// Copies `row` into row `row_index` of a batched buffer whose rows are
/// `row.len()` wide.
pub fn write_row<T: Copy>(buffer: &mut Vec<T>, row_index: usize, row: &[T])
    requires
        (row_index + 1) * row@.len() <= old(buffer)@.len(),
    ensures
        final(buffer)@ == with_row(old(buffer)@, row_index as int, row@),
{
    let width = row.len();
    let len = buffer.len();
    proof {
        assert((row_index + 1) * width == row_index * width + width) by (nonlinear_arith);
        assert(row_index * width + width <= len);
    }
    let start = row_index * width;
    let ghost old_buffer = buffer@;
    let mut i: usize = 0;
    while i < width
        invariant
            width == row@.len(),
            start == row_index * width,
            start + width <= old_buffer.len(),
            old_buffer.len() == len,
            i <= width,
            buffer@.len() == old_buffer.len(),
            forall|k: int| 0 <= k < start ==> #[trigger] buffer@[k] == old_buffer[k],
            forall|k: int| start <= k < start + i ==> #[trigger] buffer@[k] == row@[k - start],
            forall|k: int|
                start + width <= k < old_buffer.len() ==> #[trigger] buffer@[k] == old_buffer[k],
            forall|k: int| start + i <= k < start + width ==> #[trigger] buffer@[k] == old_buffer[k],
        decreases width - i,
    {
        buffer.set(start + i, row[i]);
        i = i + 1;
    }
    assert(buffer@ =~= with_row(old_buffer, row_index as int, row@));
}

} // verus!
