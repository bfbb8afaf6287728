use benchmark_functions::ackley::Ackley;
use benchmark_functions::capability::{
    Bounded, Constrained, DimensionMismatch, EvalError, FixedDimensional, MultiObjective,
    SingleObjective, UnBounded, UnConstrained,
};
use benchmark_functions::chankong_haimes::ChankongHaimes;
use benchmark_functions::griewank::Griewank;
use benchmark_functions::matyas::Matyas;
use benchmark_functions::rastrigin::Rastrigin;
use benchmark_functions::rational::{Ratio, ratio_eq, ratio_le};
use benchmark_functions::ridge::Ridge;
use benchmark_functions::rosenbrock::Rosenbrock;
use benchmark_functions::salomon::Salomon;
use benchmark_functions::sphere::Sphere;
use benchmark_functions::zakharov::Zakharov;

#[test]
fn minimizers_lie_within_bounds() {
    for n in [1usize, 2, 137] {
        assert!(Rastrigin {}.in_bounds(&Rastrigin {}.minimizer(n)));
        assert!(Ackley {}.in_bounds(&Ackley {}.minimizer(n)));
        assert!(Griewank {}.in_bounds(&Griewank {}.minimizer(n)));
        assert!(Salomon {}.in_bounds(&Salomon {}.minimizer(n)));
        assert!(Rosenbrock {}.in_bounds(&Rosenbrock {}.minimizer(n)));
        assert!(Matyas {}.in_bounds(&Matyas {}.minimizer(n)));
        assert!(Ridge {}.in_bounds(&Ridge {}.minimizer(n)));
        assert!(Zakharov {}.in_bounds(&Zakharov {}.minimizer(n)));
    }
}

#[test]
fn unbounded_accepts_everything() {
    let f = Sphere {};
    assert!(f.in_bounds(&vec![]));
    assert!(f.in_bounds(&vec![Ratio::from_int(i64::MAX), Ratio::from_int(i64::MIN)]));
    assert!(f.in_bounds(&vec![Ratio::new(i64::MAX, 1), Ratio::new(1, i64::MAX)]));
}

#[test]
fn bounds_reject_outside_coordinates() {
    let f = Rastrigin {};
    // 512/100 is the upper bound itself, inclusive
    assert!(f.in_bounds(&vec![Ratio::new(512, 100)]));
    assert!(!f.in_bounds(&vec![Ratio::new(513, 100)]));
    assert!(!f.in_bounds(&vec![Ratio::new(-513, 100)]));
    let b = f.bounds();
    assert!(ratio_le(&b.0, &b.1));
}

#[test]
fn fixed_dimensional_rejects_wrong_length() {
    let f = ChankongHaimes {};
    assert_eq!(f.d(), 2);
    assert!(f.check_input(&vec![Ratio::from_int(0); 2]).is_ok());
    let err = f.check_input(&vec![Ratio::from_int(0); 3]).unwrap_err();
    assert_eq!(err, DimensionMismatch { expected: 2, got: 3 });
    match f.f(&vec![Ratio::from_int(0); 1]) {
        Err(EvalError::Dimension(e)) => {
            assert_eq!(e, DimensionMismatch { expected: 2, got: 1 });
        },
        _ => panic!("a one-coordinate input must report a dimension mismatch"),
    }
    assert!(f.f(&vec![Ratio::from_int(0); 2]).is_ok());
}

#[test]
fn constraint_declarations() {
    let f = ChankongHaimes {};
    assert!(Constrained::constrained(&f));
    assert_eq!(f.nh(), 0);
    assert_eq!(f.ng(), 2);
    assert!(!UnConstrained::constrained(&Sphere {}));
}

#[test]
fn equality_constraints_are_empty() {
    let f = ChankongHaimes {};
    let x = vec![Ratio::from_int(1), Ratio::from_int(1)];
    assert_eq!(f.equality_constraints(&x).unwrap().len(), 0);
    assert_eq!(f.h(&x).unwrap().len(), 0);
    let g = f.g(&x).unwrap();
    assert_eq!(g.len(), 2);
    assert!(ratio_eq(&g[0], &Ratio::from_int(-223)));
}

#[test]
fn overflow_is_reported() {
    let huge = Ratio::from_int(i64::MAX);
    assert!(Sphere {}.f(&vec![huge]).is_none());
    match (ChankongHaimes {}).f(&vec![huge, huge]) {
        Err(EvalError::Overflow) => {},
        _ => panic!("squaring the largest scalar must overflow"),
    }
}

#[test]
fn minimizer_shapes() {
    let m = Ridge {}.minimizer(3);
    assert_eq!(m.len(), 3);
    assert!(ratio_eq(&m[0], &Ratio::from_int(-5)));
    assert!(ratio_eq(&m[1], &Ratio::from_int(0)));
    assert!(ratio_eq(&m[2], &Ratio::from_int(0)));
    let z = Sphere {}.minimizer(2);
    assert!(ratio_eq(&z[0], &Ratio::from_int(0)));
    let ones = Rosenbrock {}.minimizer(2);
    assert!(ratio_eq(&ones[1], &Ratio::from_int(1)));
    assert!(ratio_eq(&Rastrigin {}.minimum(), &Ratio::from_int(0)));
    assert!(ratio_eq(&Ridge {}.minimum(), &Ratio::from_int(-5)));
}

#[test]
fn rational_equivalence() {
    assert!(ratio_eq(&Ratio::new(2, 4), &Ratio::new(1, 2)));
    assert!(!ratio_eq(&Ratio::new(2, 4), &Ratio::new(2, 3)));
    assert!(ratio_le(&Ratio::new(-513, 100), &Ratio::new(-512, 100)));
    assert!(!ratio_le(&Ratio::new(1, 2), &Ratio::new(1, 3)));
    assert_eq!(Ratio::new(-512, 100).numerator(), -512);
    assert_eq!(Ratio::new(-512, 100).denominator(), 100);
}
