use raytracer::canvas::{encode, Canvas, CanvasError};
use raytracer::color::{clamp_channel, decimal, Color};
use raytracer::float_service::{absolute_value, compare_floats, constant, epsilon};
use raytracer::intersection::{IntersectError, Intersection, IntersectionObject, Intersections};
use raytracer::matrix::{Matrix, MatrixError};
use raytracer::projectile::{Environment, Projectile};
use raytracer::ray::Ray;
use raytracer::sphere::{quadratic, roots, Sphere};
use raytracer::tuple::Tuple;

fn sample_matrix() -> Matrix<f64, 4> {
    Matrix::from(vec![
        vec![-5.0, 2.0, 6.0, -8.0],
        vec![1.0, -5.0, 1.0, 8.0],
        vec![7.0, 7.0, -6.0, -7.0],
        vec![1.0, -3.0, 7.0, 4.0],
    ])
}

#[test]
fn constants_come_from_whole_numbers() {
    assert_eq!(constant::<f64>(0), 0.0);
    assert_eq!(constant::<f64>(1), 1.0);
    assert_eq!(constant::<f64>(255), 255.0);
    assert_eq!(constant::<f32>(-4), -4.0);
}

#[test]
fn tolerance_is_one_in_a_hundred_thousand() {
    assert_eq!(epsilon::<f64>(), 0.00001);
}

#[test]
fn absolute_value_drops_the_sign() {
    assert_eq!(absolute_value(-2.5), 2.5);
    assert_eq!(absolute_value(2.5), 2.5);
    assert_eq!(absolute_value(0.0), 0.0);
}

#[test]
fn compare_floats_within_and_beyond_the_tolerance() {
    assert!(compare_floats(1.0, 1.000001));
    assert!(compare_floats(1.000001, 1.0));
    assert!(!compare_floats(1.0, 1.0001));
    assert!(!compare_floats(-1.0, 1.0));
    assert!(!compare_floats(f64::NAN, f64::NAN));
}

#[test]
fn tuple_equality_ignores_the_weight() {
    let point = Tuple::new_point(1.0, 2.0, 3.0);
    let vector = Tuple::new_vector(1.0, 2.0, 3.0);
    assert!(point.eq(&vector));
    assert!(!point.eq(&Tuple::new_point(1.0, 2.0, 3.1)));
}

#[test]
fn tuple_components_by_index() {
    let mut tuple = Tuple::new(1.0, 2.0, 3.0, 4.0);
    assert_eq!(tuple[0], 1.0);
    assert_eq!(tuple[1], 2.0);
    assert_eq!(tuple[2], 3.0);
    assert_eq!(tuple[3], 4.0);
    tuple.set(2, 9.0);
    assert_eq!(tuple.z, 9.0);
    assert_eq!(tuple.x, 1.0);
    assert_eq!(tuple.y, 2.0);
    assert_eq!(tuple.w, 4.0);
}

#[test]
fn tuple_negation_gives_nothing_back() {
    let tuple = Tuple::new(1.0, -2.0, 3.0, -4.0);
    let nothing: () = -tuple;
    assert_eq!(nothing, ());
    assert_eq!(tuple.x, 1.0);
}

#[test]
fn magnitude_squared_sums_all_four_squares() {
    let tuple = Tuple::new(1.0, 2.0, 3.0, 4.0);
    assert_eq!(tuple.magnitude_squared(), 30.0);
    assert_eq!(tuple.magnitude(), f64::sqrt(30.0));
}

#[test]
fn magnitude_is_a_root_and_not_the_square() {
    let tuple = Tuple::new_vector(3.0, 4.0, 0.0);
    assert_eq!(tuple.magnitude(), 5.0);
}

#[test]
fn dot_product_counts_the_weight() {
    let a = Tuple::new(1.0, 2.0, 3.0, 4.0);
    let b = Tuple::new(2.0, 3.0, 4.0, 5.0);
    assert_eq!(a.dot_product(&b), 40.0);
}

#[test]
fn cross_product_is_a_vector() {
    let a = Tuple::new_point(1.0, 2.0, 3.0);
    let b = Tuple::new_point(2.0, 3.0, 4.0);
    let cross = a.cross_product(&b);
    assert_eq!(cross.x, -1.0);
    assert_eq!(cross.y, 2.0);
    assert_eq!(cross.z, -1.0);
    assert_eq!(cross.w, 0.0);
}

#[test]
fn normalizing_the_zero_vector_is_not_guarded() {
    let zero = Tuple::<f64>::new_vector(0.0, 0.0, 0.0);
    let normal = zero.normalize();
    assert!(normal.x.is_nan());
    assert!(normal.y.is_nan());
    assert!(normal.z.is_nan());
    assert!(normal.w.is_nan());
}

#[test]
fn tuple_as_text() {
    let tuple = Tuple::new(1.5, 2.0, -3.0, 1.0);
    assert_eq!(tuple.to_string(), "x:1.5 y:2 z:-3 w:1");
}

#[test]
fn new_matrix_is_zero() {
    let matrix = Matrix::<f64, 3>::new();
    for row in 0..3 {
        for col in 0..3 {
            assert_eq!(matrix.data[row][col], 0.0);
        }
    }
}

#[test]
fn matrix_get_outside_is_nothing() {
    let matrix = sample_matrix();
    assert_eq!(matrix.get(4, 0), None);
    assert_eq!(matrix.get(0, 4), None);
    assert_eq!(matrix.get(3, 3), Some(&4.0));
}

#[test]
fn matrix_insert_outside_is_refused() {
    let mut matrix = sample_matrix();
    assert_eq!(matrix.insert(4, 0, 1.0), Err(MatrixError::IndexOutOfBounds));
    assert_eq!(matrix.insert(0, 4, 1.0), Err(MatrixError::IndexOutOfBounds));
    assert!(matrix.eq(&sample_matrix()));
    assert_eq!(matrix.insert(1, 2, 9.5), Ok(()));
    assert_eq!(matrix.data[1][2], 9.5);
    assert_eq!(matrix.data[2][1], 7.0);
}

#[test]
fn matrix_set_writes_one_entry() {
    let mut matrix = Matrix::<f64, 2>::new();
    matrix.set(0, 1, 3.0);
    assert_eq!(matrix.data[0][1], 3.0);
    assert_eq!(matrix.data[0][0], 0.0);
    assert_eq!(matrix.data[1][0], 0.0);
    assert_eq!(matrix.data[1][1], 0.0);
}

#[test]
fn matrix_rows_by_index() {
    let matrix = sample_matrix();
    assert_eq!(matrix[1], [1.0, -5.0, 1.0, 8.0]);
    assert_eq!(matrix[3][2], 7.0);
}

#[test]
fn matrix_from_rows_pads_with_zero() {
    let matrix = Matrix::<f64, 3>::from_iter(vec![vec![1.0, 2.0], vec![3.0]]);
    assert_eq!(matrix.data, [[1.0, 2.0, 0.0], [3.0, 0.0, 0.0], [0.0, 0.0, 0.0]]);
}

#[test]
fn matrix_from_takes_the_first_entries() {
    let matrix = Matrix::<f64, 2>::from(vec![vec![1.0, 2.0, 3.0], vec![4.0, 5.0, 6.0]]);
    assert_eq!(matrix.data, [[1.0, 2.0], [4.0, 5.0]]);
}

#[test]
fn transpose_swaps_rows_and_columns() {
    let matrix = Matrix::<f64, 2>::from(vec![vec![1.0, 2.0], vec![3.0, 4.0]]);
    assert_eq!(matrix.transpose().data, [[1.0, 3.0], [2.0, 4.0]]);
}

#[test]
fn identity_has_ones_on_the_diagonal() {
    let identity = Matrix::<f64, 4>::identity_matrix();
    for row in 0..4 {
        for col in 0..4 {
            assert_eq!(identity.data[row][col], if row == col { 1.0 } else { 0.0 });
        }
    }
}

#[test]
fn builders_place_their_arguments() {
    let translation = Matrix::<f64, 4>::translation(2.0, 3.0, 4.0);
    assert_eq!(
        translation.data,
        [[1.0, 0.0, 0.0, 2.0], [0.0, 1.0, 0.0, 3.0], [0.0, 0.0, 1.0, 4.0], [0.0, 0.0, 0.0, 1.0]]
    );
    let scaling = Matrix::<f64, 4>::scaling(2.0, 3.0, 4.0);
    assert_eq!(
        scaling.data,
        [[2.0, 0.0, 0.0, 0.0], [0.0, 3.0, 0.0, 0.0], [0.0, 0.0, 4.0, 0.0], [0.0, 0.0, 0.0, 1.0]]
    );
    let shear = Matrix::<f64, 4>::sheering(2.0, 3.0, 4.0, 5.0, 6.0, 7.0);
    assert_eq!(
        shear.data,
        [[1.0, 2.0, 3.0, 0.0], [4.0, 1.0, 5.0, 0.0], [6.0, 7.0, 1.0, 0.0], [0.0, 0.0, 0.0, 1.0]]
    );
}

#[test]
fn rotations_from_cosine_and_sine() {
    let x = Matrix::<f64, 4>::rotation_x(0.6, 0.8);
    assert_eq!(
        x.data,
        [[1.0, 0.0, 0.0, 0.0], [0.0, 0.6, -0.8, 0.0], [0.0, 0.8, 0.6, 0.0], [0.0, 0.0, 0.0, 1.0]]
    );
    let y = Matrix::<f64, 4>::rotation_y(0.6, 0.8);
    assert_eq!(
        y.data,
        [[0.6, 0.0, 0.8, 0.0], [0.0, 1.0, 0.0, 0.0], [-0.8, 0.0, 0.6, 0.0], [0.0, 0.0, 0.0, 1.0]]
    );
    let z = Matrix::<f64, 4>::rotation_z(0.6, 0.8);
    assert_eq!(
        z.data,
        [[0.6, -0.8, 0.0, 0.0], [0.8, 0.6, 0.0, 0.0], [0.0, 0.0, 1.0, 0.0], [0.0, 0.0, 0.0, 1.0]]
    );
}

#[test]
fn rotation_by_an_angle_takes_its_cosine_and_sine() {
    let angle: f64 = 0.75;
    let x = Matrix::<f64, 4>::rotate_x(angle);
    assert_eq!(x.data[1][1], angle.cos());
    assert_eq!(x.data[1][2], -angle.sin());
    assert_eq!(x.data[2][1], angle.sin());
    assert_eq!(x.data[2][2], angle.cos());
    let y = Matrix::<f64, 4>::rotate_y(angle);
    assert_eq!(y.data[0][0], angle.cos());
    assert_eq!(y.data[0][2], angle.sin());
    assert_eq!(y.data[2][0], -angle.sin());
    let z = Matrix::<f64, 4>::rotate_z(angle);
    assert_eq!(z.data[0][1], -angle.sin());
    assert_eq!(z.data[1][0], angle.sin());
    assert_eq!(z.data[1][1], angle.cos());
}

#[test]
fn inverse_of_a_singular_matrix_is_refused() {
    let matrix = Matrix::<f64, 4>::from(vec![
        vec![6.0, 4.0, 4.0, 4.0],
        vec![5.0, 5.0, 7.0, 6.0],
        vec![4.0, -9.0, 3.0, -7.0],
        vec![0.0, 0.0, 0.0, 0.0],
    ]);
    match matrix.inverse() {
        Ok(_) => panic!("a singular matrix has no inverse"),
        Err(e) => assert_eq!(e, MatrixError::NotInvertible),
    }
}

#[test]
fn inverse_of_the_inverse_is_the_matrix() {
    let matrix = sample_matrix();
    let inverse = matrix.inverse().unwrap();
    let back = inverse.inverse().unwrap();
    assert!(back.eq(&matrix));
}

#[test]
fn matrix_times_its_inverse_is_the_identity() {
    let matrix = sample_matrix();
    let inverse = matrix.inverse().unwrap();
    assert!((matrix * inverse).eq(&Matrix::<f64, 4>::identity_matrix()));
    assert!((inverse * matrix).eq(&Matrix::<f64, 4>::identity_matrix()));
}

#[test]
fn cofactor_sign_follows_the_place() {
    let matrix = sample_matrix();
    assert_eq!(matrix.cofactor(0, 0), matrix.minor(0, 0));
    assert_eq!(matrix.cofactor(0, 1), -matrix.minor(0, 1));
    assert_eq!(matrix.cofactor(1, 0), -matrix.minor(1, 0));
    assert_eq!(matrix.cofactor(1, 1), matrix.minor(1, 1));
    assert_eq!(matrix.cofactor(3, 2), -matrix.minor(3, 2));
}

#[test]
fn translation_moves_points_and_not_vectors() {
    let transform = Matrix::<f64, 4>::translation(1.5, -2.0, 0.25);
    let point = Tuple::new_point(4.0, 5.0, 6.0);
    let moved = transform * point;
    assert_eq!(moved.x, 5.5);
    assert_eq!(moved.y, 3.0);
    assert_eq!(moved.z, 6.25);
    assert_eq!(moved.w, 1.0);
    let vector = Tuple::new_vector(4.0, 5.0, 6.0);
    let kept = transform * vector;
    assert_eq!(kept.x, 4.0);
    assert_eq!(kept.y, 5.0);
    assert_eq!(kept.z, 6.0);
    assert_eq!(kept.w, 0.0);
}

#[test]
fn matrix_times_tuple_is_a_full_map() {
    let matrix = Matrix::<f64, 4>::from(vec![
        vec![1.0, 0.0, 0.0, 0.0],
        vec![0.0, 1.0, 0.0, 0.0],
        vec![0.0, 0.0, 1.0, 0.0],
        vec![1.0, 2.0, 3.0, 4.0],
    ]);
    let tuple = Tuple::new(1.0, 1.0, 1.0, 2.0);
    let mapped = matrix * tuple;
    assert_eq!(mapped.w, 14.0);
}

#[test]
fn ray_position_is_exact() {
    let ray = Ray::new(Tuple::new_point(2.0, 3.0, 4.0), Tuple::new_vector(1.0, -2.0, 0.5));
    let point = ray.position(2.0);
    assert_eq!(point.x, 4.0);
    assert_eq!(point.y, -1.0);
    assert_eq!(point.z, 5.0);
    assert_eq!(point.w, 1.0);
}

#[test]
fn quadratic_of_the_head_on_ray() {
    let ray = Ray::new(Tuple::new_point(0.0, 0.0, -5.0), Tuple::new_vector(0.0, 0.0, 1.0));
    let (a, b, discriminant) = quadratic(&ray);
    assert_eq!(a, 1.0);
    assert_eq!(b, -10.0);
    assert_eq!(discriminant, 4.0);
}

#[test]
fn roots_come_lower_first() {
    let (near, far) = roots(1.0, -10.0, 2.0);
    assert_eq!(near, 4.0);
    assert_eq!(far, 6.0);
    let (near, far) = roots(2.0, 4.0, 0.0);
    assert_eq!(near, -1.0);
    assert_eq!(far, -1.0);
}

#[test]
fn intersect_reports_a_transform_without_inverse() {
    let mut sphere = Sphere::<f64>::new(7);
    sphere.set_translation(Matrix::scaling(0.0, 1.0, 1.0));
    let ray = Ray::new(Tuple::new_point(0.0, 0.0, -5.0), Tuple::new_vector(0.0, 0.0, 1.0));
    match sphere.intersect(ray) {
        Ok(_) => panic!("the transform has no inverse"),
        Err(e) => assert_eq!(e, IntersectError::TransformNotInvertible),
    }
}

#[test]
fn intersect_reports_a_miss() {
    let sphere = Sphere::<f64>::new(7);
    let ray = Ray::new(Tuple::new_point(0.0, 2.0, -5.0), Tuple::new_vector(0.0, 0.0, 1.0));
    match sphere.intersect(ray) {
        Ok(_) => panic!("the ray passes above the sphere"),
        Err(e) => assert_eq!(e, IntersectError::NoIntersection),
    }
}

#[test]
fn intersect_translated_sphere() {
    let mut sphere = Sphere::<f64>::new(7);
    sphere.set_translation(Matrix::translation(5.0, 0.0, 0.0));
    let ray = Ray::new(Tuple::new_point(0.0, 0.0, -5.0), Tuple::new_vector(0.0, 0.0, 1.0));
    assert!(sphere.intersect(ray).is_err());
    let ray = Ray::new(Tuple::new_point(5.0, 0.0, -5.0), Tuple::new_vector(0.0, 0.0, 1.0));
    let found = sphere.intersect(ray).unwrap();
    assert_eq!(found[0].value, 4.0);
    assert_eq!(found[1].value, 6.0);
    assert_eq!(found[0].object.id, 7);
    assert_eq!(found[1].object.id, 7);
}

#[test]
fn hit_inside_the_sphere_is_the_root_in_front() {
    let sphere = Sphere::<f64>::new(1);
    let ray = Ray::new(Tuple::new_point(0.0, 0.0, 0.0), Tuple::new_vector(0.0, 0.0, 1.0));
    let found = sphere.intersect(ray).unwrap();
    assert_eq!(found[0].value, -1.0);
    assert_eq!(found[1].value, 1.0);
    let hit = found.hit().unwrap();
    assert_eq!(hit.value, 1.0);
}

#[test]
fn hit_leaves_out_the_origin_of_the_ray() {
    let set = Intersections::new([Intersection::new(0.0, 1u8), Intersection::new(-1.0, 2u8)]);
    assert!(set.hit().is_none());
    let set = Intersections::new([Intersection::new(0.0, 1u8), Intersection::new(0.5, 2u8)]);
    assert_eq!(set.hit().unwrap().object, 2);
}

#[test]
fn hit_takes_the_first_of_equal_parameters() {
    let set = Intersections::new([
        Intersection::new(4.0, 1u8),
        Intersection::new(3.0, 2u8),
        Intersection::new(3.0, 3u8),
        Intersection::new(9.0, 4u8),
    ]);
    let hit = set.hit().unwrap();
    assert_eq!(hit.value, 3.0);
    assert_eq!(hit.object, 2);
}

#[test]
fn hit_of_nothing_is_nothing() {
    let set: Intersections<f64, u8, 0> = Intersections::new([]);
    assert!(set.hit().is_none());
}

#[test]
fn intersections_can_be_replaced() {
    let mut set = Intersections::new([Intersection::new(4.0, 1u8), Intersection::new(3.0, 2u8)]);
    set.set(1, Intersection::new(5.0, 9u8));
    assert_eq!(set[0].value, 4.0);
    assert_eq!(set[1].value, 5.0);
    assert_eq!(set[1].object, 9);
    assert_eq!(set.hit().unwrap().object, 1);
}

#[test]
fn spheres_compare_by_number_and_transform() {
    let a = Sphere::<f64>::new(1);
    let b = Sphere::<f64>::new(2);
    let mut c = Sphere::<f64>::new(1);
    assert!(a.eq(&c));
    assert!(!a.eq(&b));
    c.set_translation(Matrix::translation(1.0, 0.0, 0.0));
    assert!(!a.eq(&c));
    assert_eq!(c.id, 1);
}

#[test]
fn intersections_with_spheres_compare() {
    let sphere = Sphere::<f64>::new(1);
    let a = Intersection::new(1.0, sphere);
    let b = Intersection::new(1.0, sphere);
    let c = Intersection::new(1.000001, sphere);
    assert!(a.eq(&b));
    assert!(!a.eq(&c));
}

#[test]
fn normal_away_from_the_axes() {
    let sphere = Sphere::<f64>::new(1);
    let normal = sphere.normal_at(Tuple::new_point(0.0, 3.0, 4.0));
    assert_eq!(normal.x, 0.0);
    assert_eq!(normal.y, 0.6);
    assert_eq!(normal.z, 0.8);
    assert_eq!(normal.w, 0.0);
}

#[test]
fn projectile_tick() {
    let mut projectile =
        Projectile::new(Tuple::new_point(0.0, 1.0, 0.0), Tuple::new_vector(1.0, 1.0, 0.0));
    let environment =
        Environment::new(Tuple::new_vector(0.0, -0.25, 0.0), Tuple::new_vector(-0.5, 0.0, 0.0));
    projectile.tick(environment);
    assert_eq!(projectile.position.x, 1.0);
    assert_eq!(projectile.position.y, 2.0);
    assert_eq!(projectile.position.z, 0.0);
    assert_eq!(projectile.position.w, 1.0);
    assert_eq!(projectile.velocity.x, 0.5);
    assert_eq!(projectile.velocity.y, 0.75);
    assert_eq!(projectile.velocity.z, 0.0);
    assert_eq!(projectile.velocity.w, 0.0);
}

#[test]
fn projectile_as_text() {
    let projectile =
        Projectile::new(Tuple::new_point(0.0, 1.0, 0.0), Tuple::new_vector(1.0, 1.5, 0.0));
    assert_eq!(
        projectile.to_string(),
        "position: x:0 y:1 z:0 w:1 - velocity: x:1 y:1.5 z:0 w:0"
    );
}

#[test]
fn decimal_forms() {
    assert_eq!(decimal(0), "0");
    assert_eq!(decimal(7), "7");
    assert_eq!(decimal(10), "10");
    assert_eq!(decimal(255), "255");
    assert_eq!(decimal(1000), "1000");
    assert_eq!(decimal(9876543210), "9876543210");
}

#[test]
fn channels_are_kept_within_a_byte() {
    assert_eq!(clamp_channel(Some(300)), 255);
    assert_eq!(clamp_channel(Some(256)), 255);
    assert_eq!(clamp_channel(Some(255)), 255);
    assert_eq!(clamp_channel(Some(17)), 17);
    assert_eq!(clamp_channel(Some(0)), 0);
    assert_eq!(clamp_channel(Some(-4)), 0);
    assert_eq!(clamp_channel(None), 0);
}

#[test]
fn channels_are_rounded_up() {
    assert_eq!(Color::channel(0.5), 128);
    assert_eq!(Color::channel(0.001), 1);
    assert_eq!(Color::channel(1.0), 255);
    assert_eq!(Color::channel(0.0), 0);
    assert_eq!(Color::channel(-0.001), 0);
    assert_eq!(Color::channel(-7.0), 0);
    assert_eq!(Color::channel(1.001), 255);
    assert_eq!(Color::channel(1e300), 255);
    assert_eq!(Color::channel(-1e300), 0);
    assert_eq!(Color::channel(f64::INFINITY), 255);
    assert_eq!(Color::channel(f64::NEG_INFINITY), 0);
    assert_eq!(Color::channel(f64::NAN), 0);
}

#[test]
fn color_as_bytes_and_text() {
    let color = Color::new(1.5, 0.5, -0.5);
    assert_eq!(color.to_bytes(), [255, 128, 0]);
    assert_eq!(color.to_vec_string(), vec!["255", "128", "0"]);
    assert_eq!(color.to_string(), "255 128 0");
}

#[test]
fn colors_compare_within_the_tolerance() {
    let color = Color::new(0.1, 0.2, 0.3);
    assert!(color.eq(&Color::new(0.1000001, 0.2, 0.3)));
    assert!(!color.eq(&Color::new(0.1, 0.2, 0.31)));
    assert!(!color.eq(&Color::new(0.1, 0.21, 0.3)));
    assert!(!color.eq(&Color::new(0.11, 0.2, 0.3)));
}

#[test]
fn canvas_write_outside_is_refused() {
    let mut canvas = Canvas::new(8, 4);
    let color = Color::new(1.0, 0.0, 0.0);
    assert_eq!(canvas.write_pixel(8, 0, color), Err(CanvasError::IndexOutOfBounds));
    assert_eq!(canvas.write_pixel(0, 4, color), Err(CanvasError::IndexOutOfBounds));
    assert!(canvas.eq(&Canvas::new(8, 4)));
    assert_eq!(canvas.write_pixel(7, 3, color), Ok(()));
    assert_eq!(canvas.at_pixel(7, 3).red, 1.0);
}

#[test]
fn canvas_gives_back_what_was_written() {
    let mut canvas = Canvas::new(8, 8);
    let color = Color::new(0.1 + 0.2, 1e-7, -5.5);
    canvas.write_pixel(2, 3, color).unwrap();
    let read = canvas.at_pixel(2, 3);
    assert_eq!(read.red, 0.1 + 0.2);
    assert_eq!(read.green, 1e-7);
    assert_eq!(read.blue, -5.5);
    for y in 0..8 {
        for x in 0..8 {
            if !(x == 2 && y == 3) {
                let other = canvas.at_pixel(x, y);
                assert_eq!(other.red, 0.0);
                assert_eq!(other.green, 0.0);
                assert_eq!(other.blue, 0.0);
            }
        }
    }
}

#[test]
fn canvas_read_outside_is_nothing() {
    let mut canvas = Canvas::new(3, 2);
    canvas.write_pixel(2, 1, Color::new(0.25, 0.5, 0.75)).unwrap();
    assert!(canvas.pixel(3, 0).is_none());
    assert!(canvas.pixel(0, 2).is_none());
    let read = canvas.pixel(2, 1).unwrap();
    assert_eq!(read.red, 0.25);
    assert_eq!(read.green, 0.5);
    assert_eq!(read.blue, 0.75);
}

#[test]
fn canvases_compare_by_size_and_pixels() {
    let a = Canvas::new_with_color(2, 2, Color::new(0.5, 0.5, 0.5));
    let b = Canvas::new_with_color(2, 2, Color::new(0.5, 0.5, 0.5));
    let c = Canvas::new_with_color(2, 3, Color::new(0.5, 0.5, 0.5));
    let d = Canvas::new_with_color(2, 2, Color::new(0.5, 0.5, 0.6));
    assert!(a.eq(&b));
    assert!(!a.eq(&c));
    assert!(!a.eq(&d));
}

#[test]
fn encode_writes_bytes_as_given() {
    let rows = vec![vec![[255, 0, 0], [0, 128, 0]], vec![[1, 2, 3], [10, 20, 30]]];
    assert_eq!(
        encode(2, 2, &rows),
        "P3\n2 2\n255\n255 0 0 0 128 0 \n1 2 3 10 20 30 \n"
    );
}

#[test]
fn encode_of_no_rows_is_the_head() {
    let rows: Vec<Vec<[u8; 3]>> = Vec::new();
    assert_eq!(encode(0, 0, &rows), "P3\n0 0\n255\n");
    let canvas: Canvas<f64> = Canvas::new(0, 0);
    assert_eq!(canvas.to_ppm(), "P3\n0 0\n255\n");
    let canvas: Canvas<f64> = Canvas::new(0, 2);
    assert_eq!(canvas.to_ppm(), "P3\n0 2\n255\n\n\n");
}

#[test]
fn encode_wraps_after_seventeen_long_numbers() {
    let rows = vec![vec![[100u8, 100u8, 100u8]; 6]];
    let text = encode(6, 1, &rows);
    let lines: Vec<&str> = text.split('\n').collect();
    assert_eq!(lines[3].len(), 68);
    assert_eq!(lines[4], "100 ");
    assert_eq!(lines[5], "");
    assert_eq!(lines.len(), 6);
}

#[test]
fn no_line_of_the_image_is_longer_than_seventy() {
    let mut canvas = Canvas::new_with_color(57, 5, Color::new(1.0, 0.8, 0.6));
    canvas.write_pixel(3, 1, Color::new(0.0, 0.01, 0.02)).unwrap();
    canvas.write_pixel(20, 4, Color::new(0.0, 0.0, 0.0)).unwrap();
    let text = canvas.to_ppm();
    for line in text.split('\n') {
        assert!(line.chars().count() <= 70);
    }
    assert_eq!(text.chars().last().unwrap(), '\n');
    assert!(text.starts_with("P3\n57 5\n255\n"));
}
