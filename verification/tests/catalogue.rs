use benchmark_functions::capability::{Constrained, MultiObjective, SingleObjective};
use benchmark_functions::chankong_haimes::ChankongHaimes;
use benchmark_functions::matyas::Matyas;
use benchmark_functions::rational::{Ratio, ratio_eq};
use benchmark_functions::ridge::Ridge;
use benchmark_functions::rosenbrock::Rosenbrock;
use benchmark_functions::sphere::Sphere;
use benchmark_functions::zakharov::Zakharov;

const LOW_D: usize = 2;
const HIGH_D: usize = 137;

fn ints(values: &[i64]) -> Vec<Ratio> {
    values.iter().map(|&v| Ratio::from_int(v)).collect()
}

#[test]
fn sphere_low_d() {
    assert!(Sphere {}.check_minimizer(LOW_D));
}

#[test]
fn sphere_high_d() {
    assert!(Sphere {}.check_minimizer(HIGH_D));
}

#[test]
fn rosenbrock_low_d() {
    assert!(Rosenbrock {}.check_minimizer(LOW_D));
}

#[test]
fn rosenbrock_high_d() {
    assert!(Rosenbrock {}.check_minimizer(HIGH_D));
}

#[test]
fn matyas_low_d() {
    assert!(Matyas {}.check_minimizer(LOW_D));
}

#[test]
fn matyas_high_d() {
    assert!(Matyas {}.check_minimizer(HIGH_D));
}

#[test]
fn ridge_low_d() {
    assert!(Ridge {}.check_minimizer(LOW_D));
}

#[test]
fn ridge_high_d() {
    assert!(Ridge {}.check_minimizer(HIGH_D));
}

#[test]
fn zakharov_low_d() {
    assert!(Zakharov {}.check_minimizer(LOW_D));
}

#[test]
fn zakharov_high_d() {
    assert!(Zakharov {}.check_minimizer(HIGH_D));
}

#[test]
fn check_zero() {
    let f = ChankongHaimes {};
    let x = ints(&[0, 0]);
    f.f(&x).unwrap();
    f.equality_constraints(&x).unwrap();
    f.inequality_constraints(&x).unwrap();
    assert!(true);
}

#[test]
fn check_one() {
    let f = ChankongHaimes {};
    let x = ints(&[1, 1]);
    f.f(&x).unwrap();
    f.equality_constraints(&x).unwrap();
    f.inequality_constraints(&x).unwrap();
    assert!(true);
}

#[test]
fn sphere_exact_value() {
    // -(1 + 4 + 9) = -14
    let r = Sphere {}.f(&ints(&[1, 2, 3])).unwrap();
    assert!(ratio_eq(&r, &Ratio::from_int(-14)));
}

#[test]
fn rosenbrock_exact_value() {
    // 100 * (2 - 1)^2 + (1 - 1)^2 = 100
    let r = Rosenbrock {}.f(&ints(&[1, 2])).unwrap();
    assert!(ratio_eq(&r, &Ratio::from_int(100)));
}

#[test]
fn matyas_exact_value() {
    // 26/100 * 2 - 48/100 * 1 = 4/100
    let r = Matyas {}.f(&ints(&[1, 1])).unwrap();
    assert!(ratio_eq(&r, &Ratio::new(4, 100)));
}

#[test]
fn ridge_exact_value() {
    // -1 + 3 + 1 = 3; the tail squares do not influence the value
    let r = Ridge {}.f(&ints(&[3, 7])).unwrap();
    assert!(ratio_eq(&r, &Ratio::from_int(3)));
}

#[test]
fn zakharov_exact_value() {
    // ss = 2, t = 1/2, so 2 + 1/4 + 1/16 = 37/16
    let r = Zakharov {}.f(&ints(&[1, 1])).unwrap();
    assert!(ratio_eq(&r, &Ratio::new(37, 16)));
}

#[test]
fn rosenbrock_all_ones_is_zero() {
    for n in [2usize, 3, 10, 137] {
        let f = Rosenbrock {};
        let ones = f.minimizer(n);
        let r = f.f(&ones).unwrap();
        assert!(ratio_eq(&r, &Ratio::from_int(0)));
    }
}

#[test]
fn evaluation_repeatable() {
    let f = Zakharov {};
    let x = vec![Ratio::new(7, 3), Ratio::new(-5, 2), Ratio::from_int(4)];
    let r1 = f.f(&x).unwrap();
    let r2 = f.f(&x).unwrap();
    assert_eq!(r1.numerator(), r2.numerator());
    assert_eq!(r1.denominator(), r2.denominator());
}

#[test]
fn chankong_haimes_objectives_at_origin() {
    let f = ChankongHaimes {};
    let x = ints(&[0, 0]);
    // f0 = 2 + 4 - 1 = 5, f1 = 0 - 1 = -1
    let obj = f.f(&x).unwrap();
    assert_eq!(obj.len(), 2);
    assert!(ratio_eq(&obj[0], &Ratio::from_int(5)));
    assert!(ratio_eq(&obj[1], &Ratio::from_int(-1)));
    // g0 = -225, g1 = 10
    let g = f.inequality_constraints(&x).unwrap();
    assert_eq!(g.len(), 2);
    assert!(ratio_eq(&g[0], &Ratio::from_int(-225)));
    assert!(ratio_eq(&g[1], &Ratio::from_int(10)));
}

#[test]
fn chankong_haimes_objectives_at_ones() {
    let f = ChankongHaimes {};
    let x = ints(&[1, 1]);
    // f0 = 2 + 1 - 0 = 3, f1 = 9
    let obj = f.f(&x).unwrap();
    assert!(ratio_eq(&obj[0], &Ratio::from_int(3)));
    assert!(ratio_eq(&obj[1], &Ratio::from_int(9)));
    // g0 = 1 + 1 - 225 = -223, g1 = 1 - 3 + 10 = 8
    let g = f.inequality_constraints(&x).unwrap();
    assert!(ratio_eq(&g[0], &Ratio::from_int(-223)));
    assert!(ratio_eq(&g[1], &Ratio::from_int(8)));
}
