use ray_tracer::resolver::nearest_hit;
use ray_tracer::scalar::Scalar;

fn at(value: f64) -> Option<Scalar> {
    Some(Scalar::from_bits(value.to_bits()))
}

#[test]
fn empty_scene_has_no_hit() {
    assert_eq!(nearest_hit(&vec![]), None);
}

#[test]
fn scene_of_misses_has_no_hit() {
    assert_eq!(nearest_hit(&vec![None, None, None]), None);
}

#[test]
fn single_visible_hit_wins() {
    assert_eq!(nearest_hit(&vec![None, at(4.5), None]), Some(1));
    assert_eq!(nearest_hit(&vec![at(4.5)]), Some(0));
}

#[test]
fn smallest_positive_parameter_wins() {
    assert_eq!(nearest_hit(&vec![at(7.0), at(3.0), at(5.0)]), Some(1));
    assert_eq!(nearest_hit(&vec![at(3.0), at(7.0), at(5.0)]), Some(0));
    assert_eq!(nearest_hit(&vec![at(7.0), at(5.0), at(3.0)]), Some(2));
    assert_eq!(nearest_hit(&vec![at(1.0e-300), at(5.0e-324), at(1.0)]), Some(1));
}

#[test]
fn negative_and_zero_parameters_are_left_out() {
    assert_eq!(nearest_hit(&vec![at(-1.0), at(3.0)]), Some(1));
    assert_eq!(nearest_hit(&vec![at(3.0), at(-1.0)]), Some(0));
    assert_eq!(nearest_hit(&vec![at(-0.5), at(-2.0)]), None);
    assert_eq!(nearest_hit(&vec![at(0.0), at(-0.0)]), None);
    assert_eq!(nearest_hit(&vec![at(0.0), at(2.0), at(-0.0)]), Some(1));
    assert_eq!(nearest_hit(&vec![at(f64::NEG_INFINITY), at(9.0), at(-9.0)]), Some(1));
}

#[test]
fn patterns_that_are_no_numbers_are_left_out() {
    assert_eq!(nearest_hit(&vec![at(f64::NAN)]), None);
    assert_eq!(nearest_hit(&vec![at(f64::NAN), at(2.0)]), Some(1));
    assert_eq!(nearest_hit(&vec![at(2.0), at(f64::NAN), at(1.0)]), Some(2));
    assert_eq!(nearest_hit(&vec![at(-f64::NAN), None, at(6.0), at(f64::NAN)]), Some(2));
}

#[test]
fn infinite_parameters_are_left_out() {
    assert_eq!(nearest_hit(&vec![at(f64::INFINITY)]), None);
    assert_eq!(nearest_hit(&vec![at(f64::INFINITY), at(f64::MAX)]), Some(1));
    assert_eq!(nearest_hit(&vec![at(f64::NEG_INFINITY), at(f64::INFINITY)]), None);
}

#[test]
fn first_of_equally_near_hits_wins() {
    assert_eq!(nearest_hit(&vec![at(2.0), at(2.0)]), Some(0));
    assert_eq!(nearest_hit(&vec![at(5.0), at(2.0), None, at(2.0), at(2.0)]), Some(1));
}

#[test]
fn winner_is_the_minimum_of_the_positive_doubles() {
    let values = [4.0, -1.0, 2.5, f64::NAN, 0.0, 2.25, f64::INFINITY, -7.0, 2.25, 100.0];
    let candidates: Vec<Option<Scalar>> = values.iter().map(|v| at(*v)).collect();
    let mut expected: Option<usize> = None;
    for (i, v) in values.iter().enumerate() {
        if *v > 0.0 && v.is_finite() {
            match expected {
                Some(w) if values[w] <= *v => {}
                _ => expected = Some(i),
            }
        }
    }
    assert_eq!(expected, Some(5));
    assert_eq!(nearest_hit(&candidates), expected);
}
