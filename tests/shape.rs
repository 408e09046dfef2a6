use neural::tensor::{Shape, Tensor};

#[test]
fn shape() {
    let shape = Shape::scalar();
    assert_eq!(shape.order(), 0);
    assert_eq!(shape.elems(), 1);
    assert_eq!(shape.flat_index(&[]), 0);

    let shape = Shape::vector(42);
    assert_eq!(shape.order(), 1);
    assert_eq!(shape.dim(0), 42);
    assert_eq!(shape.elems(), 42);
    assert_eq!(shape.flat_index(&[8]), 8);

    let shape = Shape::matrix(42, 55);
    assert_eq!(shape.order(), 2);
    assert_eq!(shape.dim(0), 42);
    assert_eq!(shape.dim(1), 55);
    assert_eq!(shape.elems(), 42 * 55);
    assert_eq!(shape.flat_index(&[0, 8]), 8);
    assert_eq!(shape.flat_index(&[1, 8]), 55 + 8);
    assert_eq!(shape.flat_index(&[15, 12]), 15 * 55 + 12);
}

#[test]
fn matrix_shape_every_position() {
    let rows: u32 = 3;
    let cols: u32 = 7;
    let shape = Shape::matrix(rows, cols);
    assert_eq!(shape.elems(), rows * cols);
    for i in 0..rows {
        for j in 0..cols {
            assert_eq!(shape.flat_index(&[i, j]), i * cols + j);
        }
    }
}

#[test]
fn flat_index_does_not_check_bounds() {
    let shape = Shape::matrix(2, 3);
    assert_eq!(shape.flat_index(&[5, 4]), 5 * 3 + 4);
    let shape = Shape::vector(4);
    assert_eq!(shape.flat_index(&[9]), 9);
}

#[test]
fn shapes_compare_by_dims() {
    assert_eq!(Shape::vector(3), Shape::vector(3));
    assert_ne!(Shape::vector(3), Shape::vector(4));
    assert_ne!(Shape::vector(3), Shape::matrix(3, 1));
    assert_eq!(Shape::matrix(1, 1).elems(), 1);
}

#[test]
fn tensor_filled_and_indexed() {
    let mut t = Tensor::filled(Shape::matrix(2, 3), 0i32);
    assert_eq!(t.elems(), &[0, 0, 0, 0, 0, 0]);
    t.set2(1, 2, 9);
    t.set2(0, 1, 4);
    assert_eq!(*t.get2(1, 2), 9);
    assert_eq!(*t.get2(0, 1), 4);
    assert_eq!(t.elems(), &[0, 4, 0, 0, 0, 9]);
    assert_eq!(*t.shape(), Shape::matrix(2, 3));

    let mut v = Tensor::filled(Shape::vector(4), 1u8);
    v.set(3, 7);
    assert_eq!(*v.get(3), 7);
    assert_eq!(v.elems(), &[1, 1, 1, 7]);

    let s = Tensor::filled(Shape::scalar(), 5i64);
    assert_eq!(s.elems(), &[5]);
}
