use candle_core::{Device, IndexOp, Tensor};
use tape_autodiff::{Tape, Variable};

fn matrix(values: &[f64], rows: usize, cols: usize) -> Tensor {
    Tensor::from_slice(values, (rows, cols), &Device::Cpu).unwrap()
}

fn scalar(v: f64) -> Tensor {
    matrix(&[v], 1, 1)
}

fn first(t: &Tensor) -> f64 {
    t.i((0, 0)).unwrap().to_scalar::<f64>().unwrap()
}

fn entries(t: &Tensor) -> Vec<f64> {
    t.flatten_all().unwrap().to_vec1::<f64>().unwrap()
}

fn constant(v: f64) -> Variable {
    Variable::from_tensor(scalar(v)).unwrap()
}

#[test]
fn sum_gradient_is_one_for_each_operand() {
    for (a, b) in [(8.0, 4.0), (-3.5, 0.25), (0.0, 1e10)] {
        let mut t = Tape::new();
        let x = t.var(scalar(a)).unwrap();
        let y = t.var(scalar(b)).unwrap();
        let z = x.add(&mut t, &y).unwrap();
        let g = z.grad(&t).unwrap();
        assert_eq!(first(z.value()), a + b);
        assert_eq!(first(g.wrt(&x).unwrap()), 1.0);
        assert_eq!(first(g.wrt(&y).unwrap()), 1.0);
    }
}

#[test]
fn product_gradient_is_the_other_operand() {
    for (a, b) in [(0.5, 4.2), (-2.0, 3.0), (7.0, 0.0)] {
        let mut t = Tape::new();
        let x = t.var(scalar(a)).unwrap();
        let y = t.var(scalar(b)).unwrap();
        let z = x.mul(&mut t, &y).unwrap();
        let g = z.grad(&t).unwrap();
        assert_eq!(first(g.wrt(&x).unwrap()), b);
        assert_eq!(first(g.wrt(&y).unwrap()), a);

        let mut t2 = Tape::new();
        let x2 = t2.var(scalar(a)).unwrap();
        let y2 = t2.var(scalar(b)).unwrap();
        let z2 = x2.mul_elementwise(&mut t2, &y2).unwrap();
        let g2 = z2.grad(&t2).unwrap();
        assert_eq!(first(z2.value()), a * b);
        assert_eq!(first(g2.wrt(&x2).unwrap()), b);
        assert_eq!(first(g2.wrt(&y2).unwrap()), a);
    }
}

#[test]
fn difference_gradient_is_one_and_minus_one() {
    let mut t = Tape::new();
    let x = t.var(scalar(3.0)).unwrap();
    let y = t.var(scalar(5.0)).unwrap();
    let z = x.sub(&mut t, &y).unwrap();
    let g = z.grad(&t).unwrap();
    assert_eq!(first(z.value()), -2.0);
    assert_eq!(first(g.wrt(&x).unwrap()), 1.0);
    assert_eq!(first(g.wrt(&y).unwrap()), -1.0);
}

#[test]
fn sine_gradient_is_cosine() {
    for a in [0.5, -1.25, 3.0] {
        let mut t = Tape::new();
        let x = t.var(scalar(a)).unwrap();
        let z = x.sin(&mut t).unwrap();
        let g = z.grad(&t).unwrap();
        assert!((first(z.value()) - f64::sin(a)).abs() <= 1e-12);
        assert!((first(g.wrt(&x).unwrap()) - f64::cos(a)).abs() <= 1e-12);
    }
}

#[test]
fn cosine_gradient_is_minus_sine() {
    for a in [0.5, -1.25, 3.0] {
        let mut t = Tape::new();
        let x = t.var(scalar(a)).unwrap();
        let z = x.cos(&mut t).unwrap();
        let g = z.grad(&t).unwrap();
        assert!((first(z.value()) - f64::cos(a)).abs() <= 1e-12);
        assert!((first(g.wrt(&x).unwrap()) + f64::sin(a)).abs() <= 1e-12);
    }
}

#[test]
fn power_gradient_is_p_times_x_to_p_minus_one() {
    for (a, p) in [(1.5, 2.0), (3.0, 0.5), (2.0, -1.0)] {
        let mut t = Tape::new();
        let x = t.var(scalar(a)).unwrap();
        let z = x.pow(&mut t, &constant(p)).unwrap();
        let g = z.grad(&t).unwrap();
        assert!((first(z.value()) - a.powf(p)).abs() <= 1e-12);
        assert!((first(g.wrt(&x).unwrap()) - p * a.powf(p - 1.0)).abs() <= 1e-12);
    }
}

#[test]
fn chain_rule_across_mixed_operators() {
    let mut t = Tape::new();
    let x = t.var(scalar(0.5)).unwrap();
    let y = t.var(scalar(4.2)).unwrap();
    let xy = x.mul(&mut t, &y).unwrap();
    let s = x.sin(&mut t).unwrap();
    let z = xy.sub(&mut t, &s).unwrap();
    let g = z.grad(&t).unwrap();
    assert!((first(z.value()) - 1.620574461395797).abs() <= 1e-15);
    assert!((first(g.wrt(&x).unwrap()) - (4.2 - f64::cos(0.5))).abs() <= 1e-15);
    assert!((first(g.wrt(&y).unwrap()) - 0.5).abs() <= 1e-15);
}

#[test]
fn relu_gradient_is_one_when_positive_and_zero_when_negative() {
    let mut t = Tape::new();
    let p = t.var(scalar(2.5)).unwrap();
    let n = t.var(scalar(-1.5)).unwrap();
    let rp = p.relu(&mut t).unwrap();
    let rn = n.relu(&mut t).unwrap();
    assert_eq!(first(rp.value()), 2.5);
    assert_eq!(first(rn.value()), 0.0);
    assert_eq!(first(rp.grad(&t).unwrap().wrt(&p).unwrap()), 1.0);
    assert_eq!(first(rn.grad(&t).unwrap().wrt(&n).unwrap()), 0.0);

    let mut t2 = Tape::new();
    let v = t2.var(matrix(&[-2.0, 0.5, 3.0, -0.25], 1, 4)).unwrap();
    let s = v.relu(&mut t2).unwrap().sum(&mut t2).unwrap();
    let g = s.grad(&t2).unwrap();
    assert_eq!(entries(g.wrt(&v).unwrap()), vec![0.0, 1.0, 1.0, 0.0]);
}

#[test]
fn matmul_adjoint_is_the_transposed_other_operand() {
    let values = [3.0, -1.0, 0.5, 2.0, 7.0];
    let mut t = Tape::new();
    let x = t.var(matrix(&[1.0; 5], 1, 5)).unwrap();
    let y = t.var(matrix(&values, 5, 1)).unwrap();
    let z = x.mul(&mut t, &y).unwrap();
    let g = z.grad(&t).unwrap();
    assert_eq!(first(z.value()), 11.5);
    let gx = g.wrt(&x).unwrap();
    let gy = g.wrt(&y).unwrap();
    assert_eq!(gx.dims(), &[1, 5]);
    assert_eq!(gy.dims(), &[5, 1]);
    assert_eq!(entries(gx), values.to_vec());
    assert_eq!(entries(gy), vec![1.0; 5]);
}

#[test]
fn matmul_adjoint_for_rectangular_matrices() {
    // X is 2x3, Y is 3x2; the gradient of sum(X·Y) is ones·Yᵀ and Xᵀ·ones.
    let mut t = Tape::new();
    let x = t.var(matrix(&[1.0, 2.0, 3.0, 4.0, 5.0, 6.0], 2, 3)).unwrap();
    let y = t.var(matrix(&[1.0, -1.0, 2.0, 0.0, 0.5, 3.0], 3, 2)).unwrap();
    let z = x.mul(&mut t, &y).unwrap().sum(&mut t).unwrap();
    let g = z.grad(&t).unwrap();
    assert_eq!(entries(g.wrt(&x).unwrap()), vec![0.0, 2.0, 3.5, 0.0, 2.0, 3.5]);
    assert_eq!(entries(g.wrt(&y).unwrap()), vec![5.0, 5.0, 7.0, 7.0, 9.0, 9.0]);
}

#[test]
fn sum_gradient_is_ones_of_each_operand_shape() {
    let mut t = Tape::new();
    let x = t.var(matrix(&[1.0, 2.0, 3.0, 4.0, 5.0, 6.0], 2, 3)).unwrap();
    let y = t.var(matrix(&[6.0, 5.0, 4.0, 3.0, 2.0, 1.0], 2, 3)).unwrap();
    let z = x.add(&mut t, &y).unwrap().sum(&mut t).unwrap();
    let g = z.grad(&t).unwrap();
    assert_eq!(first(z.value()), 42.0);
    assert_eq!(z.value().dims(), &[1, 1]);
    for v in [&x, &y] {
        let d = g.wrt(v).unwrap();
        assert_eq!(d.dims(), &[2, 3]);
        assert_eq!(entries(d), vec![1.0; 6]);
    }
}

#[test]
fn forward_value_does_not_depend_on_grad() {
    let build = |t: &mut Tape| {
        let x = t.var(scalar(0.5)).unwrap();
        let y = t.var(scalar(4.2)).unwrap();
        let xy = x.mul(t, &y).unwrap();
        let s = x.sin(t).unwrap();
        xy.sub(t, &s).unwrap()
    };
    let mut t1 = Tape::new();
    let z1 = build(&mut t1);
    let before = first(z1.value());
    let _ = z1.grad(&t1).unwrap();
    let _ = z1.grad(&t1).unwrap();
    assert_eq!(first(z1.value()), before);

    let mut t2 = Tape::new();
    let z2 = build(&mut t2);
    assert_eq!(first(z2.value()), before);
    assert_eq!(t1.len(), t2.len());
}

#[test]
fn product_scenario() {
    let mut t = Tape::new();
    let x = t.var(scalar(0.5)).unwrap();
    let y = t.var(scalar(4.2)).unwrap();
    let z = x.mul(&mut t, &y).unwrap();
    let g = z.grad(&t).unwrap();
    assert_eq!(first(z.value()), 2.1);
    assert_eq!(first(g.wrt(&x).unwrap()), 4.2);
    assert_eq!(first(g.wrt(&y).unwrap()), 0.5);
}

#[test]
fn power_scenario() {
    let mut t = Tape::new();
    let x = t.var(scalar(2.0)).unwrap();
    let z = x.pow(&mut t, &constant(3.0)).unwrap();
    let g = z.grad(&t).unwrap();
    assert!((first(z.value()) - 8.0).abs() <= 1e-15);
    assert!((first(g.wrt(&x).unwrap()) - 12.0).abs() <= 1e-15);
}

#[test]
fn scale_by_a_constant() {
    let mut t = Tape::new();
    let x = t.var(matrix(&[1.0, -2.0, 3.0], 1, 3)).unwrap();
    let z = x.scale(&mut t, &constant(-0.5)).unwrap();
    assert_eq!(entries(z.value()), vec![-0.5, 1.0, -1.5]);
    let s = z.sum(&mut t).unwrap();
    let g = s.grad(&t).unwrap();
    assert_eq!(entries(g.wrt(&x).unwrap()), vec![-0.5; 3]);
}

#[test]
fn a_variable_used_twice_accumulates() {
    let mut t = Tape::new();
    let x = t.var(scalar(3.0)).unwrap();
    let z = x.mul_elementwise(&mut t, &x).unwrap();
    let w = z.add(&mut t, &x).unwrap();
    let g = w.grad(&t).unwrap();
    assert_eq!(first(w.value()), 12.0);
    assert_eq!(first(g.wrt(&x).unwrap()), 7.0);
}

#[test]
fn gradient_of_an_intermediate_ignores_later_nodes() {
    let mut t = Tape::new();
    let x = t.var(scalar(3.0)).unwrap();
    let y = t.var(scalar(2.0)).unwrap();
    let z = x.mul(&mut t, &y).unwrap();
    let w = z.add(&mut t, &x).unwrap();
    let g = z.grad(&t).unwrap();
    assert_eq!(g.len(), t.len());
    assert_eq!(first(g.wrt(&x).unwrap()), 2.0);
    assert_eq!(first(g.wrt(&w).unwrap()), 0.0);
    assert_eq!(first(g.wrt(&z).unwrap()), 1.0);
}
