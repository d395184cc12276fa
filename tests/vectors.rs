use pong::vectors::{cosine_of, reduce_degrees, sine_of, EuclideanVector, TRIG_ONE};

fn close(a: i64, b: i64, tolerance: i64) -> bool {
    (a - b).abs() <= tolerance
}

#[test]
fn test_bed() {
    let mut v1 = EuclideanVector::new(10000, 45);
    let v2 = EuclideanVector::new(1000, 180);

    let mut norm_v1 = v1.normalized();
    let norm_v2 = v2.normalized();
    println!("{:?} | {:?}", v1, norm_v1);
    v1.collide_with(v2);
    norm_v1.collide_with(norm_v2);

    println!("{:?} | {:?}", v1, norm_v1);
    println!(
        "{} {} | {} {}",
        v1.x_component(),
        v1.y_component(),
        norm_v1.x_component(),
        norm_v1.y_component()
    )
}

#[test]
fn fn_new_control() {
    let new_vec = EuclideanVector::new(0, 0);
    assert_eq!(new_vec, EuclideanVector { magnitude: 0, angle: 0 })
}

#[test]
fn sine_and_cosine_at_exact_angles() {
    assert_eq!(sine_of(0), 0);
    assert_eq!(sine_of(30), 500_000);
    assert_eq!(sine_of(90), TRIG_ONE);
    assert_eq!(sine_of(150), 500_000);
    assert_eq!(sine_of(180), 0);
    assert_eq!(sine_of(270), -TRIG_ONE);
    assert_eq!(sine_of(-90), -TRIG_ONE);
    assert_eq!(sine_of(450), TRIG_ONE);
    assert_eq!(cosine_of(0), TRIG_ONE);
    assert_eq!(cosine_of(180), -TRIG_ONE);
    assert_eq!(cosine_of(90), 0);
    // Bhaskara's approximation: 24300 / 34425 of one.
    assert_eq!(sine_of(45), 705_882);
}

#[test]
fn angles_reduce_into_one_turn() {
    assert_eq!(reduce_degrees(-1), 359);
    assert_eq!(reduce_degrees(-360), 0);
    assert_eq!(reduce_degrees(725), 5);
    assert_eq!(reduce_degrees(i64::MIN), 352);
}

#[test]
fn components_of_a_polar_vector() {
    let v = EuclideanVector::new(1000, 45);
    assert_eq!(v.x_component(), 705);
    assert_eq!(v.y_component(), 705);
    let w = EuclideanVector::new(1000, 225);
    assert_eq!(w.x_component(), -705);
    assert_eq!(w.y_component(), -705);
    let n = EuclideanVector::new(5000, 90);
    assert_eq!(n.normal_x_component(), 0);
    assert_eq!(n.normal_y_component(), 1000);
}

#[test]
fn from_components_round_trips_within_tolerance() {
    let cases: [(i64, i64); 8] = [
        (3000, 4000),
        (-3000, 4000),
        (-3000, -4000),
        (3000, -4000),
        (1000, 1),
        (-7, 2500),
        (123_456, -654_321),
        (5, 5),
    ];
    for (x, y) in cases {
        let v = EuclideanVector::from_components(x, y);
        let tolerance = (v.get_magnitude() as i64) / 50 + 1;
        assert!(close(v.x_component(), x, tolerance), "{} {} {:?}", x, y, v);
        assert!(close(v.y_component(), y, tolerance), "{} {} {:?}", x, y, v);
    }
}

#[test]
fn from_components_exact_on_axes() {
    let v = EuclideanVector::from_components(3000, 0);
    assert_eq!(v, EuclideanVector { magnitude: 3000, angle: 0 });
    assert_eq!((v.x_component(), v.y_component()), (3000, 0));
    let v = EuclideanVector::from_components(-3000, 0);
    assert_eq!(v, EuclideanVector { magnitude: 3000, angle: 180 });
    assert_eq!((v.x_component(), v.y_component()), (-3000, 0));
    let v = EuclideanVector::from_components(0, -42);
    assert_eq!(v, EuclideanVector { magnitude: 42, angle: -90 });
    assert_eq!((v.x_component(), v.y_component()), (0, -42));
    let v = EuclideanVector::from_components(0, 0);
    assert_eq!(v, EuclideanVector { magnitude: 0, angle: 0 });
}

#[test]
fn from_components_magnitude_is_integer_norm() {
    assert_eq!(EuclideanVector::from_components(3000, 4000).get_magnitude(), 5000);
    assert_eq!(EuclideanVector::from_components(1, 1).get_magnitude(), 1);
    assert_eq!(EuclideanVector::from_components(2_000_000_000, 2_000_000_000).get_magnitude(), 2_828_427_124);
}

#[test]
fn reflection_off_wall_with_normal_at_ninety_degrees() {
    let mut ball = EuclideanVector::new(1000, 0);
    ball.collide_with(EuclideanVector::new(1000, 90));
    assert_eq!(ball, EuclideanVector { magnitude: 1000, angle: 0 });

    let mut ball = EuclideanVector::new(1000, 45);
    ball.collide_with(EuclideanVector::new(1000, 90));
    assert_eq!(ball, EuclideanVector { magnitude: 1000, angle: -45 });

    let mut ball = EuclideanVector::new(1000, 90);
    ball.collide_with(EuclideanVector::new(1000, 90));
    assert_eq!(ball, EuclideanVector { magnitude: 1000, angle: -90 });
}

#[test]
fn reflection_off_paddle_flips_horizontal_travel() {
    let mut ball = EuclideanVector::new(2400, 45);
    ball.collide_with(EuclideanVector::new(1000, 0));
    assert_eq!(ball, EuclideanVector { magnitude: 2400, angle: 135 });
    let mut ball = EuclideanVector::new(1000, -135);
    ball.collide_with(EuclideanVector::new(1000, 180));
    assert_eq!(ball, EuclideanVector { magnitude: 1000, angle: -45 });
}

#[test]
fn collision_with_zero_vector_changes_nothing() {
    let mut ball = EuclideanVector::new(1000, 45);
    ball.collide_with(EuclideanVector::new(0, 0));
    assert_eq!(ball, EuclideanVector { magnitude: 1000, angle: 45 });
    let mut still = EuclideanVector::new(0, 10);
    still.collide_with(EuclideanVector::new(1000, 90));
    assert_eq!(still, EuclideanVector { magnitude: 0, angle: 10 });
}

#[test]
fn dot_scale_and_sums() {
    let a = EuclideanVector::new(1000, 0);
    let b = EuclideanVector::new(2000, 0);
    assert_eq!(a.dot(&b), 2000);
    assert_eq!(a.dot(&EuclideanVector::new(2000, 90)), 0);
    assert_eq!(a.dot(&EuclideanVector::new(2000, 180)), -2000);
    assert_eq!(a.dot(&EuclideanVector::new(2000, 420)), 1000);
    assert_eq!(b.scaled(2500), EuclideanVector { magnitude: 5000, angle: 0 });
    assert_eq!(a.plus(&EuclideanVector::new(1000, 90)).get_magnitude(), 1414);
    assert_eq!(a.plus(&EuclideanVector::new(1000, 90)).get_angle(), 45);
    assert_eq!(b.minus(&a), EuclideanVector { magnitude: 1000, angle: 0 });
}

#[test]
fn setters_and_update() {
    let mut v = EuclideanVector::new(1, 2);
    v.set_angle(-30);
    v.set_magnitude(77);
    assert_eq!((v.get_magnitude(), v.get_angle()), (77, -30));
    v.update(EuclideanVector::new(5, 6));
    assert_eq!(v, EuclideanVector { magnitude: 5, angle: 6 });
}
