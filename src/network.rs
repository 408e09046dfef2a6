//! Network topology and the layout of its flat parameter buffer: layers are
//! chained by size, and each layer with parameters owns the block that
//! follows the blocks of the layers before it.
use crate::layer::{DenseLayer, Layer, ReluLayer};
use vstd::prelude::*;

verus! {

/// Number of parameters held by the first `k` layers.
pub open spec fn params_before(layers: Seq<Layer>, k: int) -> nat
    decreases k,
{
    if k <= 0 {
        0
    } else {
        params_before(layers, k - 1) + layers[k - 1].spec_num_params()
    }
}

/// Width of the activation at boundary `i`: the network input for 0, else
/// the output of layer `i - 1`.
pub open spec fn boundary_width(input_size: nat, layers: Seq<Layer>, i: int) -> nat {
    if i <= 0 {
        input_size
    } else {
        layers[i - 1].spec_output_size()
    }
}

/// Each layer reads what the one before it writes, each layer with
/// parameters starts its block where the previous blocks end, and the
/// blocks together fill `num_params` entries.
pub open spec fn layout_wf(input_size: nat, layers: Seq<Layer>, num_params: nat) -> bool {
    &&& forall|i: int|
        0 <= i < layers.len() ==> #[trigger] layers[i].spec_input_size() == boundary_width(
            input_size,
            layers,
            i,
        )
    &&& forall|i: int|
        0 <= i < layers.len() && #[trigger] layers[i] is Dense ==> layers[i].spec_param_start()
            == params_before(layers, i)
    &&& num_params == params_before(layers, layers.len() as int)
    &&& num_params <= u32::MAX
}

proof fn lemma_params_before_push(layers: Seq<Layer>, l: Layer, k: int)
    requires
        0 <= k <= layers.len(),
    ensures
        params_before(layers.push(l), k) == params_before(layers, k),
    decreases k,
{
    if k > 0 {
        lemma_params_before_push(layers, l, k - 1);
        assert(layers.push(l)[k - 1] == layers[k - 1]);
    }
}

proof fn lemma_params_before_mono(layers: Seq<Layer>, a: int, b: int)
    requires
        0 <= a <= b,
    ensures
        params_before(layers, a) <= params_before(layers, b),
    decreases b,
{
    if a < b {
        lemma_params_before_mono(layers, a, b - 1);
    }
}

/// Pushing a layer that reads the current output, and whose parameters
/// start where the current ones end, keeps the layout well formed.
proof fn lemma_layout_push(input_size: nat, layers: Seq<Layer>, num_params: nat, l: Layer)
    requires
        layout_wf(input_size, layers, num_params),
        l.spec_input_size() == boundary_width(input_size, layers, layers.len() as int),
        l is Dense ==> l.spec_param_start() == num_params,
        num_params + l.spec_num_params() <= u32::MAX,
    ensures
        layout_wf(
            input_size,
            layers.push(l),
            num_params + l.spec_num_params(),
        ),
{
    let ls = layers.push(l);
    let n = layers.len() as int;
    assert forall|i: int| 0 <= i < ls.len() implies #[trigger] ls[i].spec_input_size()
        == boundary_width(input_size, ls, i) by {
        if i < n {
            assert(ls[i] == layers[i]);
            assert(layers[i].spec_input_size() == boundary_width(input_size, layers, i));
        }
    }
    assert forall|i: int| 0 <= i < ls.len() && #[trigger] ls[i] is Dense implies ls[i].spec_param_start()
        == params_before(ls, i) by {
        lemma_params_before_push(layers, l, i);
        if i < n {
            assert(ls[i] == layers[i]);
        }
    }
    lemma_params_before_push(layers, l, n);
}

/// The parameter blocks of a well-formed layout lie inside the buffer, and
/// the blocks of two different layers never overlap: the gradient buffer,
/// laid out the same way, gives every layer a range of its own.
pub proof fn lemma_param_blocks_disjoint(
    input_size: nat,
    layers: Seq<Layer>,
    num_params: nat,
    i: int,
    j: int,
)
    requires
        layout_wf(input_size, layers, num_params),
        0 <= i < j < layers.len(),
    ensures
        layers[i].spec_num_params() > 0 ==> layers[i].spec_param_start()
            + layers[i].spec_num_params() <= num_params,
        layers[i].spec_num_params() > 0 && layers[j].spec_num_params() > 0 ==> layers[i].spec_param_start()
            + layers[i].spec_num_params() <= layers[j].spec_param_start(),
{
    let n = layers.len() as int;
    if layers[i].spec_num_params() > 0 {
        assert(layers[i] is Dense);
        lemma_params_before_mono(layers, i + 1, n);
        if layers[j].spec_num_params() > 0 {
            assert(layers[j] is Dense);
            lemma_params_before_mono(layers, i + 1, j);
        }
    }
}

/// A network: its input size and its layers, in order, over a flat parameter
/// buffer of `num_params` entries.
#[derive(Clone, Debug)]
pub struct Network {
    input_size: u32,
    layers: Vec<Layer>,
    num_params: u32,
}

impl Network {
    pub closed spec fn spec_input_size(&self) -> nat {
        self.input_size as nat
    }

    pub closed spec fn spec_layers(&self) -> Seq<Layer> {
        self.layers@
    }

    pub closed spec fn spec_num_params(&self) -> nat {
        self.num_params as nat
    }

    pub open spec fn wf(&self) -> bool {
        layout_wf(self.spec_input_size(), self.spec_layers(), self.spec_num_params())
    }

    pub fn input_size(&self) -> (r: u32)
        ensures
            r == self.spec_input_size(),
    {
        self.input_size
    }

    /// Width of the network's output: that of its last layer, or of its
    /// input when it has no layers.
    pub fn output_size(&self) -> (r: u32)
        ensures
            r == boundary_width(
                self.spec_input_size(),
                self.spec_layers(),
                self.spec_layers().len() as int,
            ),
    {
        let n = self.layers.len();
        if n == 0 {
            self.input_size
        } else {
            self.layers[n - 1].output_size()
        }
    }

    pub fn layers(&self) -> (r: &[Layer])
        ensures
            r@ == self.spec_layers(),
    {
        self.layers.as_slice()
    }

    /// Length of the parameter buffer, and of the gradient buffer.
    pub fn num_params(&self) -> (r: u32)
        ensures
            r == self.spec_num_params(),
    {
        self.num_params
    }

    /// The whole parameter buffer, as the optimizer and persistence see it;
    /// the gradient buffer spans the same range.
    pub fn param_buffer_range(&self) -> (r: std::ops::Range<usize>)
        ensures
            r.start == 0,
            r.end == self.spec_num_params(),
    {
        0..self.num_params as usize
    }

    /// Lengths of the activation buffers for batches of `batch_size`
    /// samples: one per layer boundary, `batch_size` times its width.
    pub fn activation_buffer_sizes(&self, batch_size: u32) -> (r: Vec<u64>)
        ensures
            r@.len() == self.spec_layers().len() + 1,
            forall|i: int|
                0 <= i < r@.len() ==> #[trigger] r@[i] == batch_size * boundary_width(
                    self.spec_input_size(),
                    self.spec_layers(),
                    i,
                ),
    {
        let mut result: Vec<u64> = Vec::new();
        proof {
            crate::layer::lemma_mul_u32_fits(batch_size, self.input_size);
        }
        result.push(batch_size as u64 * self.input_size as u64);
        let mut i: usize = 0;
        while i < self.layers.len()
            invariant
                i <= self.layers@.len(),
                result@.len() == i + 1,
                forall|k: int|
                    0 <= k < result@.len() ==> #[trigger] result@[k] == batch_size
                        * boundary_width(self.spec_input_size(), self.spec_layers(), k),
            decreases self.layers@.len() - i,
        {
            let width = self.layers[i].output_size();
            proof {
                crate::layer::lemma_mul_u32_fits(batch_size, width);
            }
            result.push(batch_size as u64 * width as u64);
            i = i + 1;
        }
        result
    }
}

/// Builds a network layer by layer, giving each affine layer the next block
/// of the parameter buffer.
#[derive(Clone, Debug)]
pub struct NetworkBuilder {
    input_size: u32,
    num_params: u32,
    layers: Vec<Layer>,
}

impl NetworkBuilder {
    pub closed spec fn spec_input_size(&self) -> nat {
        self.input_size as nat
    }

    pub closed spec fn spec_layers(&self) -> Seq<Layer> {
        self.layers@
    }

    pub closed spec fn spec_num_params(&self) -> nat {
        self.num_params as nat
    }

    pub open spec fn wf(&self) -> bool {
        layout_wf(self.spec_input_size(), self.spec_layers(), self.spec_num_params())
    }

    /// Input width of the next layer to be added.
    pub open spec fn spec_next_input_size(&self) -> nat {
        boundary_width(
            self.spec_input_size(),
            self.spec_layers(),
            self.spec_layers().len() as int,
        )
    }

    pub fn new(input_size: u32) -> (b: NetworkBuilder)
        ensures
            b.wf(),
            b.spec_input_size() == input_size,
            b.spec_layers() == Seq::<Layer>::empty(),
            b.spec_num_params() == 0,
    {
        NetworkBuilder { input_size, num_params: 0, layers: Vec::new() }
    }

    /// Number of parameters of the layers added so far.
    pub fn num_params(&self) -> (r: u32)
        ensures
            r == self.spec_num_params(),
    {
        self.num_params
    }

    pub fn next_input_size(&self) -> (r: u32)
        ensures
            r == self.spec_next_input_size(),
    {
        let n = self.layers.len();
        if n == 0 {
            self.input_size
        } else {
            self.layers[n - 1].output_size()
        }
    }

    /// Appends an affine layer of `output_size` outputs; its parameters take
    /// the next `input * output_size + output_size` entries of the buffer.
    pub fn add_dense_layer(&mut self, output_size: u32)
        requires
            old(self).wf(),
            old(self).spec_num_params() + old(self).spec_next_input_size() * output_size
                + output_size <= u32::MAX,
        ensures
            final(self).wf(),
            final(self).spec_input_size() == old(self).spec_input_size(),
            final(self).spec_layers().len() == old(self).spec_layers().len() + 1,
            final(self).spec_layers().drop_last() == old(self).spec_layers(),
            final(self).spec_layers().last() is Dense,
            final(self).spec_layers().last().spec_input_size() == old(
                self,
            ).spec_next_input_size(),
            final(self).spec_layers().last().spec_output_size() == output_size,
            final(self).spec_layers().last().spec_param_start() == old(self).spec_num_params(),
            final(self).spec_num_params() == old(self).spec_num_params() + old(
                self,
            ).spec_next_input_size() * output_size + output_size,
    {
        let input_size = self.next_input_size();
        let layer = DenseLayer::new(input_size, output_size, self.num_params);
        self.add_layer(Layer::Dense(layer));
    }

    /// Appends a rectified-linear layer as wide as the current output.
    pub fn add_relu(&mut self)
        requires
            old(self).wf(),
        ensures
            final(self).wf(),
            final(self).spec_input_size() == old(self).spec_input_size(),
            final(self).spec_layers().len() == old(self).spec_layers().len() + 1,
            final(self).spec_layers().drop_last() == old(self).spec_layers(),
            final(self).spec_layers().last() is ReLu,
            final(self).spec_layers().last().spec_input_size() == old(
                self,
            ).spec_next_input_size(),
            final(self).spec_num_params() == old(self).spec_num_params(),
    {
        let size = self.next_input_size();
        self.add_layer(Layer::ReLu(ReluLayer::new(size)));
    }

    pub fn build(self) -> (n: Network)
        requires
            self.wf(),
        ensures
            n.wf(),
            n.spec_input_size() == self.spec_input_size(),
            n.spec_layers() == self.spec_layers(),
            n.spec_num_params() == self.spec_num_params(),
    {
        Network { input_size: self.input_size, layers: self.layers, num_params: self.num_params }
    }

    fn add_layer(&mut self, layer: Layer)
        requires
            old(self).wf(),
            layer.spec_input_size() == old(self).spec_next_input_size(),
            layer is Dense ==> layer.spec_param_start() == old(self).spec_num_params(),
            old(self).spec_num_params() + layer.spec_num_params() <= u32::MAX,
        ensures
            final(self).wf(),
            final(self).spec_input_size() == old(self).spec_input_size(),
            final(self).spec_layers() == old(self).spec_layers().push(layer),
            final(self).spec_num_params() == old(self).spec_num_params()
                + layer.spec_num_params(),
    {
        proof {
            lemma_layout_push(
                self.spec_input_size(),
                self.spec_layers(),
                self.spec_num_params(),
                layer,
            );
        }
        let n = layer.num_params();
        self.num_params = self.num_params + n;
        self.layers.push(layer);
    }
}

} // verus!
