use neural::layer::{DenseLayer, Layer, ReluLayer};
use neural::loss::{CrossEntropy, Loss, Mse};
use neural::network::NetworkBuilder;
use neural::trainer::write_row;

#[test]
fn dense_layer_blocks() {
    let layer = DenseLayer::new(3, 2, 10);
    assert_eq!(layer.input_size(), 3);
    assert_eq!(layer.output_size(), 2);
    assert_eq!(layer.param_buffer_offset(), 10);
    assert_eq!(layer.num_params(), 3 * 2 + 2);
    assert_eq!(layer.param_buffer_range(), 10..18);
    assert_eq!(layer.weights_range(), 10..16);
    assert_eq!(layer.biases_range(), 16..18);
    // weight[row, col] is row-major over [output_size, input_size]
    assert_eq!(layer.weight_index(0, 0), 10);
    assert_eq!(layer.weight_index(0, 2), 12);
    assert_eq!(layer.weight_index(1, 0), 13);
    assert_eq!(layer.weight_index(1, 2), 15);
    assert_eq!(layer.bias_index(0), 16);
    assert_eq!(layer.bias_index(1), 17);
}

#[test]
fn relu_layer_has_no_params() {
    let layer = Layer::ReLu(ReluLayer::new(5));
    assert_eq!(layer.input_size(), 5);
    assert_eq!(layer.output_size(), 5);
    assert_eq!(layer.num_params(), 0);
    assert_eq!(layer.param_buffer_range(), 0..0);
}

#[test]
fn forward_sizes_checked_per_batch() {
    let layer = Layer::Dense(DenseLayer::new(3, 1, 0));
    assert!(layer.forward_sizes_ok(4, 3, 1, 1));
    assert!(layer.forward_sizes_ok(4, 12, 4, 4));
    assert!(!layer.forward_sizes_ok(3, 12, 4, 4));
    assert!(!layer.forward_sizes_ok(4, 11, 4, 4));
    assert!(!layer.forward_sizes_ok(4, 12, 3, 4));
    let relu = Layer::ReLu(ReluLayer::new(6));
    assert!(relu.forward_sizes_ok(0, 12, 12, 2));
    assert!(!relu.forward_sizes_ok(1, 12, 12, 2));
    assert!(!relu.forward_sizes_ok(0, 6, 12, 2));
}

#[test]
fn backward_sizes_checked_per_batch() {
    let layer = Layer::Dense(DenseLayer::new(2, 3, 5));
    // params, output_grad, input, result_grad, input_grad
    assert!(layer.backward_sizes_ok(9, 6, 4, 9, 4, 2));
    assert!(!layer.backward_sizes_ok(9, 6, 4, 8, 4, 2));
    assert!(!layer.backward_sizes_ok(9, 3, 4, 9, 4, 2));
    assert!(!layer.backward_sizes_ok(9, 6, 4, 9, 2, 2));
    let relu = Layer::ReLu(ReluLayer::new(4));
    assert!(relu.backward_sizes_ok(0, 12, 12, 0, 12, 3));
    assert!(!relu.backward_sizes_ok(0, 12, 12, 0, 11, 3));
}

#[test]
fn builder_lays_out_parameter_blocks() {
    let mut builder = NetworkBuilder::new(1);
    assert_eq!(builder.next_input_size(), 1);
    builder.add_dense_layer(10);
    assert_eq!(builder.next_input_size(), 10);
    builder.add_relu();
    builder.add_dense_layer(8);
    builder.add_relu();
    builder.add_dense_layer(1);
    assert_eq!(builder.num_params(), 20 + 88 + 9);
    let network = builder.build();
    assert_eq!(network.input_size(), 1);
    assert_eq!(network.output_size(), 1);
    assert_eq!(network.num_params(), 117);
    assert_eq!(network.param_buffer_range(), 0..117);
    let layers = network.layers();
    assert_eq!(layers.len(), 5);
    let ranges: Vec<_> = layers.iter().map(|l| l.param_buffer_range()).collect();
    assert_eq!(ranges, vec![0..20, 0..0, 20..108, 0..0, 108..117]);
    let widths: Vec<u32> = layers.iter().map(|l| l.output_size()).collect();
    assert_eq!(widths, vec![10, 10, 8, 8, 1]);
    match layers[2] {
        Layer::Dense(d) => {
            assert_eq!(d.input_size(), 10);
            assert_eq!(d.output_size(), 8);
            assert_eq!(d.param_buffer_offset(), 20);
        }
        Layer::ReLu(_) => panic!("expected an affine layer"),
    }
}

#[test]
fn empty_network_passes_input_through() {
    let network = NetworkBuilder::new(4).build();
    assert_eq!(network.layers().len(), 0);
    assert_eq!(network.output_size(), 4);
    assert_eq!(network.num_params(), 0);
    assert_eq!(network.activation_buffer_sizes(3), vec![12]);
}

#[test]
fn activation_buffers_per_boundary() {
    let mut builder = NetworkBuilder::new(3);
    builder.add_dense_layer(5);
    builder.add_relu();
    builder.add_dense_layer(2);
    let network = builder.build();
    assert_eq!(network.activation_buffer_sizes(4), vec![12, 20, 20, 8]);
    assert_eq!(network.activation_buffer_sizes(1), vec![3, 5, 5, 2]);
    assert_eq!(network.activation_buffer_sizes(0), vec![0, 0, 0, 0]);
}

#[test]
fn activation_buffer_of_largest_sizes() {
    let network = NetworkBuilder::new(u32::MAX).build();
    let expected = u32::MAX as u64 * u32::MAX as u64;
    assert_eq!(network.activation_buffer_sizes(u32::MAX), vec![expected]);
}

#[test]
fn batch_rows_written_in_place() {
    let mut buffer = vec![0i32; 9];
    write_row(&mut buffer, 1, &[4, 5, 6]);
    assert_eq!(buffer, vec![0, 0, 0, 4, 5, 6, 0, 0, 0]);
    write_row(&mut buffer, 0, &[1, 2, 3]);
    write_row(&mut buffer, 2, &[7, 8, 9]);
    assert_eq!(buffer, vec![1, 2, 3, 4, 5, 6, 7, 8, 9]);
    write_row(&mut buffer, 1, &[]);
    assert_eq!(buffer, vec![1, 2, 3, 4, 5, 6, 7, 8, 9]);
}

#[test]
fn loss_kinds() {
    let a = Loss::Mse(Mse::new());
    let b = Loss::CrossEntropy(CrossEntropy::new());
    assert_ne!(a, b);
    assert_eq!(a, Loss::Mse(Mse::new()));
}
