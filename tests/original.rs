use candle_core::{Device, IndexOp, Tensor};
use tape_autodiff::{Tape, Variable};

fn matrix(values: &[f64], rows: usize, cols: usize) -> Tensor {
    Tensor::from_slice(values, (rows, cols), &Device::Cpu).unwrap()
}

fn first(t: &Tensor) -> f64 {
    t.i((0, 0)).unwrap().to_scalar::<f64>().unwrap()
}

#[test]
fn test_x_times_y() {
    let mut t = Tape::new();
    let x = t.var(matrix(&[0.5], 1, 1)).unwrap();
    let y = t.var(matrix(&[4.2], 1, 1)).unwrap();
    let two = Variable::from_tensor(matrix(&[2.0], 1, 1)).unwrap();
    let z = y.clone().scale(&mut t, &two).unwrap();
    let grad = z.grad(&t).unwrap();

    // Check that the calculated value is correct
    let z_value = first(z.value());
    assert!((z_value - 8.4) <= 1e-15);

    let x_grad_value = first(grad.wrt(&x).unwrap());
    let y_grad_value = first(grad.wrt(&y).unwrap());
    // Assert that the gradients calculated are correct as well.
    assert!((x_grad_value - 0.0).abs() <= 1e-15);
    assert!((y_grad_value - 2.0).abs() <= 1e-15);
}

#[test]
fn test_x_times_y_2d() {
    const N: usize = 4;

    let mut t = Tape::new();
    let x_value = matrix(&[1.0, 2.0, 3.0, 4.0], 1, N);
    let x = t.var(x_value.clone()).unwrap();
    let y_value = matrix(&[8.0, 6.0, 4.0, 2.0], N, 1);
    let y = t.var(y_value.clone()).unwrap();

    let z = x.clone().mul(&mut t, &y.clone()).unwrap();
    let grad = z.grad(&t).unwrap();

    // Check that the calculated value is correct
    let z_value = first(z.value());
    assert!((z_value - 40.0) <= 1e-15);

    // Assert that the gradients calculated are correct as well.
    assert!(
        y_value
            .t()
            .unwrap()
            .eq(grad.wrt(&x).unwrap())
            .unwrap()
            .sum_all()
            .unwrap()
            .to_scalar::<u8>()
            .unwrap()
            == 4
    );
    assert!(
        x_value
            .t()
            .unwrap()
            .eq(grad.wrt(&y).unwrap())
            .unwrap()
            .sum_all()
            .unwrap()
            .to_scalar::<u8>()
            .unwrap()
            == 4
    );
}

#[test]
fn test_x_plus_y_2d() {
    const N: usize = 4;

    let mut t = Tape::new();
    let x_value = matrix(&[1.0, 2.0, 3.0, 4.0], 1, N);
    let x = t.var(x_value.clone()).unwrap();
    let y_value = matrix(&[8.0, 6.0, 4.0, 2.0], 1, N);
    let y = t.var(y_value.clone()).unwrap();

    let z = x.clone().add(&mut t, &y.clone()).unwrap().sum(&mut t).unwrap();
    let grad = z.grad(&t).unwrap();

    // Check that the calculated value is correct
    let z_value = first(z.value());
    assert!((z_value - 40.0) <= 1e-15);

    // Assert that the gradients calculated are correct as well.
    assert!(
        x_value
            .ones_like()
            .unwrap()
            .eq(grad.wrt(&x).unwrap())
            .unwrap()
            .sum_all()
            .unwrap()
            .to_scalar::<u8>()
            .unwrap()
            == 4
    );
    assert!(
        y_value
            .ones_like()
            .unwrap()
            .eq(grad.wrt(&y).unwrap())
            .unwrap()
            .sum_all()
            .unwrap()
            .to_scalar::<u8>()
            .unwrap()
            == 4
    );
}

#[test]
fn test_x_plus_y() {
    let mut t = Tape::new();
    let x = t.var(matrix(&[8.0], 1, 1)).unwrap();
    let y = t.var(matrix(&[4.0], 1, 1)).unwrap();
    let z = x.clone().add(&mut t, &y.clone()).unwrap();
    let grad = z.grad(&t).unwrap();

    // Check that the calculated value is correct
    println!("The z value is {}", z.value());
    let z_value = first(z.value());
    assert!((z_value - 12.0) <= 1e-15);
    // Assert that the gradients calculated are correct as well.
    assert!((first(grad.wrt(&x).unwrap()) - 1.0) <= 1e-15);
    assert!((first(grad.wrt(&y).unwrap()) - 1.0) <= 1e-15);
}
