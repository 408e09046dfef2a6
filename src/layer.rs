//! Layer descriptors. A layer owns no values: an affine layer names its
//! sizes and where its weights and biases start in the network's flat
//! parameter buffer; a rectified-linear layer has no parameters at all.
use vstd::prelude::*;

verus! {

/// Two `u32` values multiply without leaving `u64`.
pub(crate) proof fn lemma_mul_u32_fits(a: u32, b: u32)
    ensures
        a * b <= u32::MAX * u32::MAX,
        a * b < u64::MAX,
{
    assert(a * b <= u32::MAX * u32::MAX) by (nonlinear_arith)
        requires
            a <= u32::MAX,
            b <= u32::MAX,
    ;
}

/// Affine (dense) layer: `output[b, j] = bias[j] + sum_k input[b, k] * weight[j, k]`.
/// Its block of the parameter buffer starts at `param_buffer_offset` and holds
/// the weights, `output_size` rows of `input_size`, then `output_size` biases.
#[derive(Clone, Copy, Debug, PartialEq, Eq)]
pub struct DenseLayer {
    input_size: u32,
    output_size: u32,
    param_buffer_offset: u32,
}

impl DenseLayer {
    pub closed spec fn spec_input_size(&self) -> nat {
        self.input_size as nat
    }

    pub closed spec fn spec_output_size(&self) -> nat {
        self.output_size as nat
    }

    pub closed spec fn spec_offset(&self) -> nat {
        self.param_buffer_offset as nat
    }

    /// Number of weights.
    pub open spec fn spec_num_weights(&self) -> nat {
        self.spec_input_size() * self.spec_output_size()
    }

    /// Number of weights and biases.
    pub open spec fn spec_num_params(&self) -> nat {
        self.spec_num_weights() + self.spec_output_size()
    }

    /// The whole parameter block ends within `u32` range.
    #[verifier::type_invariant]
    closed spec fn inv(self) -> bool {
        self.spec_offset() + self.spec_num_params() <= u32::MAX
    }

    pub fn new(input_size: u32, output_size: u32, param_buffer_offset: u32) -> (l: DenseLayer)
        requires
            param_buffer_offset + input_size * output_size + output_size <= u32::MAX,
        ensures
            l.spec_input_size() == input_size,
            l.spec_output_size() == output_size,
            l.spec_offset() == param_buffer_offset,
    {
        DenseLayer { input_size, output_size, param_buffer_offset }
    }

    pub fn input_size(&self) -> (r: u32)
        ensures
            r == self.spec_input_size(),
    {
        self.input_size
    }

    pub fn output_size(&self) -> (r: u32)
        ensures
            r == self.spec_output_size(),
    {
        self.output_size
    }

    pub fn param_buffer_offset(&self) -> (r: u32)
        ensures
            r == self.spec_offset(),
    {
        self.param_buffer_offset
    }

    pub fn num_params(&self) -> (r: u32)
        ensures
            r == self.spec_num_params(),
            self.spec_offset() + r <= u32::MAX,
    {
        proof {
            use_type_invariant(self);
        }
        self.input_size * self.output_size + self.output_size
    }

    /// The layer's block of the parameter buffer (and of the gradient buffer,
    /// which is laid out the same way).
    pub fn param_buffer_range(&self) -> (r: std::ops::Range<usize>)
        ensures
            r.start == self.spec_offset(),
            r.end == self.spec_offset() + self.spec_num_params(),
    {
        let n = self.num_params();
        let start = self.param_buffer_offset as usize;
        start..start + n as usize
    }

    /// The weight block: `output_size` rows of `input_size` entries.
    pub fn weights_range(&self) -> (r: std::ops::Range<usize>)
        ensures
            r.start == self.spec_offset(),
            r.end == self.spec_offset() + self.spec_num_weights(),
    {
        proof {
            use_type_invariant(self);
        }
        let start = self.param_buffer_offset as usize;
        start..start + (self.input_size * self.output_size) as usize
    }

    /// The bias block, right after the weights.
    pub fn biases_range(&self) -> (r: std::ops::Range<usize>)
        ensures
            r.start == self.spec_offset() + self.spec_num_weights(),
            r.end == self.spec_offset() + self.spec_num_params(),
    {
        proof {
            use_type_invariant(self);
        }
        let start = self.param_buffer_offset as usize + (self.input_size * self.output_size) as usize;
        start..start + self.output_size as usize
    }

    /// Position in the parameter buffer of `weight[row, col]`, the weight
    /// from input `col` to output `row`.
    pub fn weight_index(&self, row: u32, col: u32) -> (r: usize)
        requires
            row < self.spec_output_size(),
            col < self.spec_input_size(),
        ensures
            r == self.spec_offset() + row * self.spec_input_size() + col,
            self.spec_offset() <= r < self.spec_offset() + self.spec_num_weights(),
    {
        proof {
            use_type_invariant(self);
            let i = self.spec_input_size();
            let o = self.spec_output_size();
            assert(row * i + col < o * i) by (nonlinear_arith)
                requires
                    row < o,
                    col < i,
            ;
            assert(o * i == i * o) by (nonlinear_arith);
        }
        self.param_buffer_offset as usize + (row * self.input_size) as usize + col as usize
    }

    /// Position in the parameter buffer of `bias[row]`.
    pub fn bias_index(&self, row: u32) -> (r: usize)
        requires
            row < self.spec_output_size(),
        ensures
            r == self.spec_offset() + self.spec_num_weights() + row,
            self.spec_offset() + self.spec_num_weights() <= r < self.spec_offset()
                + self.spec_num_params(),
    {
        proof {
            use_type_invariant(self);
        }
        self.param_buffer_offset as usize + (self.input_size * self.output_size) as usize
            + row as usize
    }
}

/// Rectified-linear layer: `output[i] = max(0, input[i])`, with no parameters.
#[derive(Clone, Copy, Debug, PartialEq, Eq)]
pub struct ReluLayer {
    size: u32,
}

impl ReluLayer {
    pub closed spec fn spec_size(&self) -> nat {
        self.size as nat
    }

    pub fn new(size: u32) -> (l: ReluLayer)
        ensures
            l.spec_size() == size,
    {
        ReluLayer { size }
    }

    pub fn input_size(&self) -> (r: u32)
        ensures
            r == self.spec_size(),
    {
        self.size
    }

    pub fn output_size(&self) -> (r: u32)
        ensures
            r == self.spec_size(),
    {
        self.size
    }
}

/// The closed set of layer kinds a network is built from.
#[derive(Clone, Copy, Debug, PartialEq, Eq)]
pub enum Layer {
    Dense(DenseLayer),
    ReLu(ReluLayer),
}

impl Layer {
    pub open spec fn spec_input_size(&self) -> nat {
        match self {
            Layer::Dense(l) => l.spec_input_size(),
            Layer::ReLu(l) => l.spec_size(),
        }
    }

    pub open spec fn spec_output_size(&self) -> nat {
        match self {
            Layer::Dense(l) => l.spec_output_size(),
            Layer::ReLu(l) => l.spec_size(),
        }
    }

    pub open spec fn spec_num_params(&self) -> nat {
        match self {
            Layer::Dense(l) => l.spec_num_params(),
            Layer::ReLu(_) => 0,
        }
    }

    /// Where the layer's parameters start; a layer without parameters has
    /// the empty block at 0.
    pub open spec fn spec_param_start(&self) -> nat {
        match self {
            Layer::Dense(l) => l.spec_offset(),
            Layer::ReLu(_) => 0,
        }
    }

    /// Expected lengths for a forward pass over `batch_size` samples.
    pub open spec fn spec_forward_sizes_ok(
        &self,
        params_len: nat,
        input_len: nat,
        output_len: nat,
        batch_size: nat,
    ) -> bool {
        &&& params_len == self.spec_num_params()
        &&& input_len == batch_size * self.spec_input_size()
        &&& output_len == batch_size * self.spec_output_size()
    }

    /// Expected lengths for a backward pass over `batch_size` samples.
    pub open spec fn spec_backward_sizes_ok(
        &self,
        params_len: nat,
        output_grad_len: nat,
        input_len: nat,
        result_grad_len: nat,
        input_grad_len: nat,
        batch_size: nat,
    ) -> bool {
        &&& params_len == self.spec_num_params()
        &&& result_grad_len == self.spec_num_params()
        &&& output_grad_len == batch_size * self.spec_output_size()
        &&& input_len == batch_size * self.spec_input_size()
        &&& input_grad_len == batch_size * self.spec_input_size()
    }

    pub fn input_size(&self) -> (r: u32)
        ensures
            r == self.spec_input_size(),
    {
        match self {
            Layer::Dense(l) => l.input_size(),
            Layer::ReLu(l) => l.input_size(),
        }
    }

    pub fn output_size(&self) -> (r: u32)
        ensures
            r == self.spec_output_size(),
    {
        match self {
            Layer::Dense(l) => l.output_size(),
            Layer::ReLu(l) => l.output_size(),
        }
    }

    pub fn num_params(&self) -> (r: u32)
        ensures
            r == self.spec_num_params(),
            self.spec_param_start() + r <= u32::MAX,
    {
        match self {
            Layer::Dense(l) => l.num_params(),
            Layer::ReLu(_) => 0,
        }
    }

    /// The layer's block of the parameter buffer and of the gradient buffer.
    pub fn param_buffer_range(&self) -> (r: std::ops::Range<usize>)
        ensures
            r.start == self.spec_param_start(),
            r.end == self.spec_param_start() + self.spec_num_params(),
    {
        match self {
            Layer::Dense(l) => l.param_buffer_range(),
            Layer::ReLu(_) => 0..0,
        }
    }

    /// Whether buffers of these lengths fit a forward pass over `batch_size`
    /// samples.
    pub fn forward_sizes_ok(
        &self,
        params_len: usize,
        input_len: usize,
        output_len: usize,
        batch_size: u32,
    ) -> (r: bool)
        ensures
            r == self.spec_forward_sizes_ok(
                params_len as nat,
                input_len as nat,
                output_len as nat,
                batch_size as nat,
            ),
    {
        let n_in = self.input_size();
        let n_out = self.output_size();
        proof {
            lemma_mul_u32_fits(batch_size, n_in);
            lemma_mul_u32_fits(batch_size, n_out);
        }
        let batch_in = batch_size as u64 * n_in as u64;
        let batch_out = batch_size as u64 * n_out as u64;
        params_len as u64 == self.num_params() as u64 && input_len as u64 == batch_in
            && output_len as u64 == batch_out
    }

    /// Whether buffers of these lengths fit a backward pass over
    /// `batch_size` samples.
    pub fn backward_sizes_ok(
        &self,
        params_len: usize,
        output_grad_len: usize,
        input_len: usize,
        result_grad_len: usize,
        input_grad_len: usize,
        batch_size: u32,
    ) -> (r: bool)
        ensures
            r == self.spec_backward_sizes_ok(
                params_len as nat,
                output_grad_len as nat,
                input_len as nat,
                result_grad_len as nat,
                input_grad_len as nat,
                batch_size as nat,
            ),
    {
        let n_in = self.input_size();
        let n_out = self.output_size();
        let n_params = self.num_params() as u64;
        proof {
            lemma_mul_u32_fits(batch_size, n_in);
            lemma_mul_u32_fits(batch_size, n_out);
        }
        let batch_in = batch_size as u64 * n_in as u64;
        let batch_out = batch_size as u64 * n_out as u64;
        params_len as u64 == n_params && result_grad_len as u64 == n_params
            && output_grad_len as u64 == batch_out && input_len as u64 == batch_in
            && input_grad_len as u64 == batch_in
    }
}

} // verus!
