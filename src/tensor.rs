//! Tensor shapes with row-major addressing, and dense tensors over them.
use vstd::prelude::*;

verus! {

/// Number of elements of a tensor whose axes have the sizes in `dims`.
pub open spec fn dims_product(dims: Seq<nat>) -> nat
    decreases dims.len(),
{
    if dims.len() == 0 {
        1
    } else {
        dims_product(dims.drop_last()) * dims.last()
    }
}

/// Row-major offset of the position `idx` in a tensor with axes `dims`,
/// built axis by axis: `offset = offset * dims[i] + idx[i]`.
pub open spec fn row_major_offset(dims: Seq<nat>, idx: Seq<nat>) -> nat
    decreases dims.len(),
{
    if dims.len() == 0 || idx.len() == 0 {
        0
    } else {
        row_major_offset(dims.drop_last(), idx.drop_last()) * dims.last() + idx.last()
    }
}

/// Row-major offset as a sum: `sum_i idx[i] * product_{k > i} dims[k]`.
pub open spec fn offset_sum(dims: Seq<nat>, idx: Seq<nat>) -> nat
    decreases dims.len(),
{
    if dims.len() == 0 || idx.len() == 0 {
        0
    } else {
        idx[0] * dims_product(dims.skip(1)) + offset_sum(dims.skip(1), idx.skip(1))
    }
}

/// The offset built axis by axis equals the sum of each index times the
/// sizes of the axes after it.
pub proof fn lemma_row_major_offset_is_sum(dims: Seq<nat>, idx: Seq<nat>)
    requires
        idx.len() == dims.len(),
    ensures
        row_major_offset(dims, idx) == offset_sum(dims, idx),
    decreases dims.len(),
{
    if dims.len() == 1 {
        assert(dims.skip(1) =~= Seq::<nat>::empty());
        assert(dims.drop_last() =~= Seq::<nat>::empty());
        assert(dims_product(dims.skip(1)) == 1);
        assert(offset_sum(dims.skip(1), idx.skip(1)) == 0);
        assert(row_major_offset(dims.drop_last(), idx.drop_last()) == 0);
        let i0 = idx[0];
        let d0 = dims[0];
        assert(i0 * 1 == i0 && 0 * d0 == 0) by (nonlinear_arith);
    } else if dims.len() > 1 {
        let d1 = dims.drop_last();
        let i1 = idx.drop_last();
        let ds = dims.skip(1);
        let is = idx.skip(1);
        lemma_row_major_offset_is_sum(d1, i1);
        lemma_row_major_offset_is_sum(ds, is);
        lemma_row_major_offset_is_sum(ds.drop_last(), is.drop_last());
        assert(d1.skip(1) =~= ds.drop_last());
        assert(i1.skip(1) =~= is.drop_last());
        let last = dims.last();
        let il = idx.last();
        assert(ds.last() == last);
        assert(is.last() == il);
        assert(d1[0] == dims[0] && i1[0] == idx[0]);
        // row(dims) = row(d1) * last + il, and row(d1) = sum(d1)
        //   = i0 * P(ds') + sum(ds', is') with ds' = ds.drop_last()
        let i0 = idx[0];
        let p = dims_product(ds.drop_last());
        let r = offset_sum(ds.drop_last(), is.drop_last());
        assert(offset_sum(d1, i1) == i0 * p + r);
        assert(dims_product(ds) == p * last);
        assert(row_major_offset(ds, is) == row_major_offset(ds.drop_last(), is.drop_last())
            * last + il);
        assert(offset_sum(ds, is) == r * last + il);
        assert((i0 * p + r) * last + il == i0 * (p * last) + (r * last + il))
            by (nonlinear_arith);
    }
}

/// The indices of a slice of `u32` as natural numbers.
pub open spec fn nat_indices(idx: Seq<u32>) -> Seq<nat> {
    idx.map_values(|x: u32| x as nat)
}

/// Closed forms of the element count and the row-major offset for
/// up to two axes.
proof fn lemma_short_dims(dims: Seq<nat>)
    ensures
        dims.len() == 0 ==> dims_product(dims) == 1,
        dims.len() == 1 ==> dims_product(dims) == dims[0],
        dims.len() == 2 ==> dims_product(dims) == dims[0] * dims[1],
        forall|idx: Seq<nat>|
            #![trigger row_major_offset(dims, idx)]
            idx.len() == dims.len() ==> {
                &&& dims.len() == 0 ==> row_major_offset(dims, idx) == 0
                &&& dims.len() == 1 ==> row_major_offset(dims, idx) == idx[0]
                &&& dims.len() == 2 ==> row_major_offset(dims, idx) == idx[0] * dims[1]
                    + idx[1]
            },
    decreases dims.len(),
{
    if dims.len() > 0 {
        let d1 = dims.drop_last();
        lemma_short_dims(d1);
        let p1 = dims_product(d1);
        let last = dims.last();
        assert(dims_product(dims) == p1 * last);
        if dims.len() == 1 {
            assert(p1 * last == last) by (nonlinear_arith)
                requires
                    p1 == 1,
            ;
        } else if dims.len() == 2 {
            assert(p1 == d1[0]);
        }
        assert forall|idx: Seq<nat>| idx.len() == dims.len() implies {
            &&& dims.len() == 1 ==> row_major_offset(dims, idx) == idx[0]
            &&& dims.len() == 2 ==> row_major_offset(dims, idx) == idx[0] * dims[1] + idx[1]
        } by {
            let i1 = idx.drop_last();
            let o1 = row_major_offset(d1, i1);
            assert(row_major_offset(dims, idx) == o1 * last + idx.last());
            if dims.len() == 1 {
                assert(o1 == 0);
                assert(o1 * last == 0) by (nonlinear_arith)
                    requires
                        o1 == 0,
                ;
            } else if dims.len() == 2 {
                assert(o1 == i1[0]);
            }
        }
    }
}

/// A matrix shape of `rows` by `cols` holds `rows * cols` elements, and the
/// position `(i, j)` lies at offset `i * cols + j`, inside the storage.
pub proof fn lemma_matrix_layout(rows: nat, cols: nat, i: nat, j: nat)
    requires
        i < rows,
        j < cols,
    ensures
        dims_product(seq![rows, cols]) == rows * cols,
        row_major_offset(seq![rows, cols], seq![i, j]) == i * cols + j,
        i * cols + j < rows * cols,
{
    lemma_short_dims(seq![rows, cols]);
    assert(row_major_offset(seq![rows, cols], seq![i, j]) == i * cols + j);
    assert(i * cols + j < rows * cols) by (nonlinear_arith)
        requires
            i < rows,
            j < cols,
    ;
}

/// With every axis of positive size, a prefix of the axes never holds more
/// elements than the whole.
proof fn lemma_prefix_product(dims: Seq<nat>, k: int)
    requires
        0 <= k <= dims.len(),
        forall|i: int| 0 <= i < dims.len() ==> #[trigger] dims[i] >= 1,
    ensures
        dims_product(dims.take(k)) <= dims_product(dims),
    decreases dims.len(),
{
    if k < dims.len() {
        let d1 = dims.drop_last();
        lemma_prefix_product(d1, k);
        assert(d1.take(k) =~= dims.take(k));
        let p1 = dims_product(d1);
        let last = dims.last();
        assert(p1 <= p1 * last) by (nonlinear_arith)
            requires
                last >= 1,
        ;
    } else {
        assert(dims.take(k) =~= dims);
    }
}

/// With every axis of positive size, the offset of a prefix of a position
/// never exceeds the offset of the whole position.
proof fn lemma_prefix_offset(dims: Seq<nat>, idx: Seq<nat>, k: int)
    requires
        0 <= k <= dims.len(),
        idx.len() == dims.len(),
        forall|i: int| 0 <= i < dims.len() ==> #[trigger] dims[i] >= 1,
    ensures
        row_major_offset(dims.take(k), idx.take(k)) <= row_major_offset(dims, idx),
    decreases dims.len(),
{
    if k < dims.len() {
        let d1 = dims.drop_last();
        let i1 = idx.drop_last();
        lemma_prefix_offset(d1, i1, k);
        assert(d1.take(k) =~= dims.take(k));
        assert(i1.take(k) =~= idx.take(k));
        let o1 = row_major_offset(d1, i1);
        let last = dims.last();
        assert(o1 <= o1 * last) by (nonlinear_arith)
            requires
                last >= 1,
        ;
    } else {
        assert(dims.take(k) =~= dims);
        assert(idx.take(k) =~= idx);
    }
}

/// Shape of a tensor with up to two axes, each of positive size.
#[derive(Clone, Copy, Debug, PartialEq, Eq)]
pub struct Shape {
    dims: [u32; 2],
    order: u32,
}

impl View for Shape {
    type V = Seq<nat>;

    /// The sizes of the axes, outermost first.
    closed spec fn view(&self) -> Seq<nat> {
        Seq::new(self.order as nat, |i: int| self.dims@[i] as nat)
    }
}

impl Shape {
    /// At most two axes, each of positive size; unused slots hold 1, and
    /// the element count fits in a `u32`.
    #[verifier::type_invariant]
    closed spec fn inv(self) -> bool {
        &&& self.order <= 2
        &&& forall|i: int| 0 <= i < 2 ==> #[trigger] self.dims@[i] >= 1
        &&& forall|i: int| self.order <= i < 2 ==> #[trigger] self.dims@[i] == 1
        &&& dims_product(self@) <= u32::MAX
    }

    pub fn scalar() -> (s: Shape)
        ensures
            s@ == Seq::<nat>::empty(),
    {
        let s = Shape { dims: [1u32, 1u32], order: 0 };
        assert(s@ =~= Seq::<nat>::empty());
        s
    }

    pub fn vector(size: u32) -> (s: Shape)
        requires
            size > 0,
        ensures
            s@ == seq![size as nat],
    {
        let dims = [size, 1u32];
        proof {
            let v = Seq::new(1, |i: int| dims@[i] as nat);
            assert(v =~= seq![size as nat]);
            lemma_short_dims(v);
        }
        Shape { dims, order: 1 }
    }

    pub fn matrix(size0: u32, size1: u32) -> (s: Shape)
        requires
            size0 > 0,
            size1 > 0,
            size0 * size1 <= u32::MAX,
        ensures
            s@ == seq![size0 as nat, size1 as nat],
    {
        let dims = [size0, size1];
        proof {
            let v = Seq::new(2, |i: int| dims@[i] as nat);
            assert(v =~= seq![size0 as nat, size1 as nat]);
            lemma_short_dims(v);
        }
        Shape { dims, order: 2 }
    }

    pub fn order(&self) -> (o: u32)
        ensures
            o == self@.len(),
            o <= 2,
    {
        proof {
            use_type_invariant(self);
        }
        self.order
    }

    pub fn dim(&self, n: u32) -> (d: u32)
        requires
            n < self@.len(),
        ensures
            d == self@[n as int],
            d > 0,
    {
        proof {
            use_type_invariant(self);
        }
        self.dims[n as usize]
    }

    /// Number of elements: the product of the axis sizes.
    pub fn elems(&self) -> (e: u32)
        ensures
            e == dims_product(self@),
    {
        proof {
            use_type_invariant(self);
            lemma_prefix_product(self@, self@.len() as int);
        }
        let mut result: u32 = 1;
        let mut i: u32 = 0;
        while i < self.order
            invariant
                self.inv(),
                i <= self.order,
                result == dims_product(self@.take(i as int)),
            decreases self.order - i,
        {
            proof {
                assert(self@.take(i + 1).drop_last() =~= self@.take(i as int));
                lemma_prefix_product(self@, i + 1);
            }
            result = result * self.dims[i as usize];
            i = i + 1;
        }
        proof {
            assert(self@.take(i as int) =~= self@);
        }
        result
    }

    /// Row-major offset of the position `indices`; the index values are not
    /// checked against the axis sizes.
    pub fn flat_index(&self, indices: &[u32]) -> (r: u32)
        requires
            indices@.len() == self@.len(),
            row_major_offset(self@, nat_indices(indices@)) <= u32::MAX,
        ensures
            r == row_major_offset(self@, nat_indices(indices@)),
    {
        proof {
            use_type_invariant(self);
        }
        let ghost idx = nat_indices(indices@);
        let mut result: u32 = 0;
        let mut i: u32 = 0;
        while i < self.order
            invariant
                self.inv(),
                i <= self.order,
                indices@.len() == self@.len(),
                idx == nat_indices(indices@),
                row_major_offset(self@, idx) <= u32::MAX,
                result == row_major_offset(self@.take(i as int), idx.take(i as int)),
            decreases self.order - i,
        {
            proof {
                assert(self@.take(i + 1).drop_last() =~= self@.take(i as int));
                assert(idx.take(i + 1).drop_last() =~= idx.take(i as int));
                lemma_prefix_offset(self@, idx, i + 1);
                let o = row_major_offset(self@.take(i as int), idx.take(i as int));
                let d = self@[i as int];
                assert(o <= o * d) by (nonlinear_arith)
                    requires
                        d >= 1,
                ;
            }
            result = result * self.dims[i as usize] + indices[i as usize];
            i = i + 1;
        }
        proof {
            assert(self@.take(i as int) =~= self@);
            assert(idx.take(i as int) =~= idx);
        }
        result
    }
}

/// Dense tensor: a shape and its elements in row-major order.
#[derive(Clone, Debug)]
pub struct Tensor<T> {
    elems: Vec<T>,
    shape: Shape,
}

impl<T> View for Tensor<T> {
    type V = Seq<T>;

    /// The elements, in row-major order.
    closed spec fn view(&self) -> Seq<T> {
        self.elems@
    }
}

impl<T> Tensor<T> {
    pub closed spec fn spec_shape(&self) -> Shape {
        self.shape
    }

    /// The storage holds exactly one element per position of the shape.
    pub closed spec fn wf(&self) -> bool {
        self.elems@.len() == dims_product(self.shape@)
    }

    /// A tensor of the given shape with every element equal to `value`.
    pub fn filled(shape: Shape, value: T) -> (t: Tensor<T>)
        where
            T: Copy,
        ensures
            t.wf(),
            t.spec_shape() == shape,
            t@ == Seq::new(dims_product(shape@), |i: int| value),
    {
        let n = shape.elems();
        let mut elems: Vec<T> = Vec::new();
        let mut i: u32 = 0;
        while i < n
            invariant
                i <= n,
                elems@ == Seq::new(i as nat, |k: int| value),
            decreases n - i,
        {
            elems.push(value);
            i = i + 1;
        }
        Tensor { elems, shape }
    }

    pub fn shape(&self) -> (r: &Shape)
        ensures
            *r == self.spec_shape(),
    {
        &self.shape
    }

    pub fn elems(&self) -> (r: &[T])
        requires
            self.wf(),
        ensures
            r@ == self@,
            r@.len() == dims_product(self.spec_shape()@),
    {
        self.elems.as_slice()
    }

    /// Element `index` of a vector.
    pub fn get(&self, index: u32) -> (r: &T)
        requires
            self.wf(),
            self.spec_shape()@.len() == 1,
            index < self.spec_shape()@[0],
        ensures
            *r == self@[index as int],
    {
        proof {
            lemma_short_dims(self.shape@);
        }
        &self.elems[index as usize]
    }

    /// Element `(row, col)` of a matrix.
    pub fn get2(&self, row: u32, col: u32) -> (r: &T)
        requires
            self.wf(),
            self.spec_shape()@.len() == 2,
            row < self.spec_shape()@[0],
            col < self.spec_shape()@[1],
        ensures
            *r == self@[row * self.spec_shape()@[1] + col],
    {
        let k = self.flat_position(row, col);
        &self.elems[k]
    }

    /// Replaces element `index` of a vector.
    pub fn set(&mut self, index: u32, value: T)
        requires
            old(self).wf(),
            old(self).spec_shape()@.len() == 1,
            index < old(self).spec_shape()@[0],
        ensures
            final(self).wf(),
            final(self).spec_shape() == old(self).spec_shape(),
            final(self)@ == old(self)@.update(index as int, value),
    {
        proof {
            lemma_short_dims(self.shape@);
        }
        self.elems.set(index as usize, value);
    }

    /// Replaces element `(row, col)` of a matrix.
    pub fn set2(&mut self, row: u32, col: u32, value: T)
        requires
            old(self).wf(),
            old(self).spec_shape()@.len() == 2,
            row < old(self).spec_shape()@[0],
            col < old(self).spec_shape()@[1],
        ensures
            final(self).wf(),
            final(self).spec_shape() == old(self).spec_shape(),
            final(self)@ == old(self)@.update(row * old(self).spec_shape()@[1] + col, value),
    {
        let k = self.flat_position(row, col);
        self.elems.set(k, value);
    }

    /// Storage position of `(row, col)`, through the shape's row-major index.
    fn flat_position(&self, row: u32, col: u32) -> (k: usize)
        requires
            self.wf(),
            self.spec_shape()@.len() == 2,
            row < self.spec_shape()@[0],
            col < self.spec_shape()@[1],
        ensures
            k == row * self.spec_shape()@[1] + col,
            k < self@.len(),
    {
        proof {
            use_type_invariant(&self.shape);
            let d = self.shape@;
            lemma_short_dims(d);
            lemma_matrix_layout(d[0], d[1], row as nat, col as nat);
            assert(nat_indices(seq![row, col]) =~= seq![row as nat, col as nat]);
        }
        let indices = [row, col];
        proof {
            assert(indices@ =~= seq![row, col]);
            assert(nat_indices(indices@) =~= seq![row as nat, col as nat]);
        }
        self.shape.flat_index(indices.as_slice()) as usize
    }
}

} // verus!
