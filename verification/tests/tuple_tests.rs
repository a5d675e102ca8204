use raytracer::float_service::compare_floats;
use raytracer::tuple::Tuple;

#[test]
fn new_point() {
    let point = Tuple::new_point(4.3, -4.2, 3.1);

    assert_eq!(point.x, 4.3);
    assert_eq!(point.y, -4.2);
    assert_eq!(point.z, 3.1);
    assert_eq!(point.w, 1.0);
}

#[test]
fn new_vector() {
    let point = Tuple::new_vector(4.3, -4.2, 3.1);

    assert_eq!(point.x, 4.3);
    assert_eq!(point.y, -4.2);
    assert_eq!(point.z, 3.1);
    assert_eq!(point.w, 0.0);
}

#[test]
fn tuple_addition() {
    let point = Tuple::new_point(3.0, -2.0, 5.0);
    let vector = Tuple::new_vector(-2.0, 3.0, 1.0);

    let new_tuple = point + vector;

    assert_eq!(new_tuple.x, 1.0);
    assert_eq!(new_tuple.y, 1.0);
    assert_eq!(new_tuple.z, 6.0);
    assert_eq!(new_tuple.w, 1.0);
}

#[test]
fn points_subtraction() {
    let point1 = Tuple::new_point(3.0, 2.0, 1.0);
    let point2 = Tuple::new_point(5.0, 6.0, 7.0);

    let new_tuple = point1 - point2;

    assert_eq!(new_tuple.x, -2.0);
    assert_eq!(new_tuple.y, -4.0);
    assert_eq!(new_tuple.z, -6.0);
    assert_eq!(new_tuple.w, 0.0);
}

#[test]
fn vector_point_subtraction() {
    let point1 = Tuple::new_point(3.0, 2.0, 1.0);
    let point2 = Tuple::new_vector(5.0, 6.0, 7.0);

    let new_tuple = point1 - point2;

    assert_eq!(new_tuple.x, -2.0);
    assert_eq!(new_tuple.y, -4.0);
    assert_eq!(new_tuple.z, -6.0);
    assert_eq!(new_tuple.w, 1.0);
}

#[test]
fn vectors_subtraction() {
    let point1 = Tuple::new_vector(3.0, 2.0, 1.0);
    let point2 = Tuple::new_vector(5.0, 6.0, 7.0);

    let new_tuple = point1 - point2;

    assert_eq!(new_tuple.x, -2.0);
    assert_eq!(new_tuple.y, -4.0);
    assert_eq!(new_tuple.z, -6.0);
    assert_eq!(new_tuple.w, 0.0);
}

#[test]
fn negate_tuple() {
    let point = Tuple::new(1.0, -2.0, 3.0, -4.0);

    assert_eq!(-point.x, -1.0);
    assert_eq!(-point.y, 2.0);
    assert_eq!(-point.z, -3.0);
    assert_eq!(-point.w, 4.0);
}

#[test]
fn multiply_tuple() {
    let point1 = Tuple::new(1.0, -2.0, 3.0, -4.0);
    let point2 = Tuple::new(1.0, -2.0, 3.0, -4.0);

    let point1 = point1 * 3.5;
    let point2 = point2 * 0.5;
    assert_eq!(point1.x, 3.5);
    assert_eq!(point1.y, -7.0);
    assert_eq!(point1.z, 10.5);
    assert_eq!(point1.w, -14.0);

    assert_eq!(point2.x, 0.5);
    assert_eq!(point2.y, -1.0);
    assert_eq!(point2.z, 1.5);
    assert_eq!(point2.w, -2.0);
}

#[test]
fn division_tuple() {
    let point = Tuple::new(1.0, -2.0, 3.0, -4.0);

    let point = point / 2.0;
    assert_eq!(point.x, 0.5);
    assert_eq!(point.y, -1.0);
    assert_eq!(point.z, 1.5);
    assert_eq!(point.w, -2.0);
}

#[test]
fn magnitude_vector() {
    let vector1 = Tuple::new_vector(1.0, 0.0, 0.0);
    let vector2 = Tuple::new_vector(0.0, 1.0, 0.0);
    let vector3 = Tuple::new_vector(0.0, 0.0, 1.0);
    let vector4 = Tuple::new_vector(1.0, 2.0, 3.0);
    let vector5 = Tuple::new_vector(-1.0, -2.0, -3.0);

    assert_eq!(vector1.magnitude(), 1.0);
    assert_eq!(vector2.magnitude(), 1.0);
    assert_eq!(vector3.magnitude(), 1.0);
    assert_eq!(vector4.magnitude(), f64::sqrt(14.0));
    assert_eq!(vector5.magnitude(), f64::sqrt(14.0));
}

#[test]
fn normalization_vector() {
    let vector1 = Tuple::new_vector(4.0, 0.0, 0.0);
    let vector2 = Tuple::new_vector(1.0, 2.0, 3.0);
    let vector3 = Tuple::new_vector(1.0, 2.0, 3.0);

    assert!(vector1.normalize().eq(&Tuple::new_vector(1.0, 0.0, 0.0)));
    assert!(vector2.normalize().eq(&Tuple::new_vector(
        1.0 / f64::sqrt(14.0),
        2.0 / f64::sqrt(14.0),
        3.0 / f64::sqrt(14.0)
    )));
    assert!(compare_floats(vector3.normalize().magnitude(), 1.0));
}

#[test]
fn dot_product() {
    let vector1 = Tuple::new_vector(1.0, 2.0, 3.0);
    let vector2 = Tuple::new_vector(2.0, 3.0, 4.0);

    assert_eq!(Tuple::dot_product(&vector1, &vector2), 20.0)
}

#[test]
fn cross_product() {
    let vector1 = Tuple::new_vector(1.0, 2.0, 3.0);
    let vector2 = Tuple::new_vector(2.0, 3.0, 4.0);
    let right_vector1 = Tuple::new_vector(-1.0, 2.0, -1.0);
    let right_vector2 = Tuple::new_vector(1.0, -2.0, 1.0);

    assert!((Tuple::cross_product(&vector1, &vector2)).eq(&right_vector1));
    assert!((Tuple::cross_product(&vector2, &vector1)).eq(&right_vector2));
}
