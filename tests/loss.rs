use ceres_solver::loss::{LossFunction, LossFunctionKind};

type Custom = fn(f64, &mut [f64; 3]);

fn trivial(s: f64, out: &mut [f64; 3]) {
    out[0] = s;
    out[1] = 1.0;
    out[2] = 0.0;
}

#[test]
fn stock_losses_keep_their_scales() {
    assert_eq!(LossFunction::<f64, Custom>::huber(1.0).into_inner(), LossFunctionKind::Huber(1.0));
    assert_eq!(LossFunction::<f64, Custom>::soft_l1(2.0).into_inner(), LossFunctionKind::SoftLOne(2.0));
    assert_eq!(LossFunction::<f64, Custom>::cauchy(5.0).into_inner(), LossFunctionKind::Cauchy(5.0));
    assert_eq!(LossFunction::<f64, Custom>::arctan(1.0).into_inner(), LossFunctionKind::Arctan(1.0));
    assert_eq!(
        LossFunction::<f64, Custom>::tolerant(1.0, 0.5).into_inner(),
        LossFunctionKind::Tolerant(1.0, 0.5)
    );
    assert_eq!(LossFunction::<f64, Custom>::tukey(3.0).into_inner(), LossFunctionKind::Tukey(3.0));
}

#[test]
fn custom_loss_keeps_its_function() {
    let loss = LossFunction::<f64, Custom>::custom(trivial);
    match loss.into_inner() {
        LossFunctionKind::Custom(f) => {
            let mut out = [0.0; 3];
            f(2.0, &mut out);
            assert_eq!(out, [2.0, 1.0, 0.0]);
        }
        _ => panic!("expected a custom loss"),
    }
}
