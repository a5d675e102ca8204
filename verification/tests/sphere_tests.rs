use raytracer::intersection::IntersectionObject;
use raytracer::ray::Ray;
use raytracer::sphere::Sphere;
use raytracer::matrix::Matrix;
use raytracer::tuple::Tuple;

#[test]
fn ray_intersection_2_points() {
    let ray = Ray::<f64>::new(
        Tuple::<f64>::new_point(0.0, 0.0, -5.0),
        Tuple::<f64>::new_vector(0.0, 0.0, 1.0),
    );
    let sphere = Sphere::<f64>::new(1);

    match sphere.intersect(ray) {
        Ok(inter) => {
            assert_eq!(inter[0].value, 4.0_f64);
            assert_eq!(inter[1].value, 6.0_f64)
        }
        Err(_) => {
            assert_eq!(true, false)
        }
    }
}

#[test]
fn ray_intersect_tangent() {
    let ray = Ray::<f64>::new(
        Tuple::<f64>::new_point(0.0, 1.0, -5.0),
        Tuple::<f64>::new_vector(0.0, 0.0, 1.0),
    );
    let sphere = Sphere::<f64>::new(1);

    match sphere.intersect(ray) {
        Ok(inter) => {
            assert_eq!(inter[0].value, 5.0_f64);
            assert_eq!(inter[1].value, 5.0_f64)
        }
        Err(_) => {
            assert_eq!(true, false)
        }
    }
}

#[test]
fn ray_misses_sphere() {
    let ray = Ray::<f64>::new(
        Tuple::<f64>::new_point(0.0, 2.0, -5.0),
        Tuple::<f64>::new_vector(0.0, 0.0, 1.0),
    );
    let sphere = Sphere::<f64>::new(1);

    match sphere.intersect(ray) {
        Ok(_) => {
            assert_eq!(true, false)
        }
        Err(_) => {
            assert_eq!(true, true)
        }
    }
}

#[test]
fn ray_originates_in_sphere() {
    let ray = Ray::<f64>::new(
        Tuple::<f64>::new_point(0.0, 0.0, 0.0),
        Tuple::<f64>::new_vector(0.0, 0.0, 1.0),
    );
    let sphere = Sphere::<f64>::new(1);

    match sphere.intersect(ray) {
        Ok(inter) => {
            assert_eq!(inter[0].value, -1.0_f64);
            assert_eq!(inter[1].value, 1.0_f64)
        }
        Err(_) => {
            assert_eq!(true, false)
        }
    }
}

#[test]
fn sphere_behind_ray() {
    let ray = Ray::<f64>::new(
        Tuple::<f64>::new_point(0.0, 0.0, 5.0),
        Tuple::<f64>::new_vector(0.0, 0.0, 1.0),
    );
    let sphere = Sphere::<f64>::new(1);

    match sphere.intersect(ray) {
        Ok(inter) => {
            assert_eq!(inter[0].value, -6.0_f64);
            assert_eq!(inter[1].value, -4.0_f64)
        }
        Err(_) => {
            assert_eq!(true, false)
        }
    }
}

#[test]
fn sphere_default_transformation() {
    let sphere = Sphere::<f64>::new(1);
    let identity_matrix = Matrix::<f64, 4>::identity_matrix();

    assert!(sphere.transformation.eq(&identity_matrix))
}

#[test]
fn change_sphere_transformation() {
    let mut sphere = Sphere::<f64>::new(1);
    let translation = Matrix::<f64, 4>::translation(2.0, 3.0, 4.0);
    sphere.set_translation(translation.clone());

    assert!(sphere.transformation.eq(&translation))
}

#[test]
fn intersect_scaled_sphere_ray() {
    let ray = Ray::<f64>::new(
        Tuple::<f64>::new_point(0.0, 0.0, -5.0),
        Tuple::<f64>::new_vector(0.0, 0.0, 1.0),
    );
    let mut sphere = Sphere::<f64>::new(1);
    sphere.set_translation(Matrix::scaling(2.0, 2.0, 2.0));
    match sphere.intersect(ray) {
        Ok(inter) => {
            assert_eq!(inter[0].value, 3.0);
            assert_eq!(inter[1].value, 7.0)
        }
        Err(_) => {
            assert_eq!(true, false)
        }
    }
}

#[test]
fn normal_on_x_axis() {
    let sphere = Sphere::<f64>::new(1);
    let point = Tuple::<f64>::new_point(1.0, 0.0, 0.0);
    let correct_normal = Tuple::<f64>::new_vector(1.0, 0.0, 0.0);

    assert!(sphere.normal_at(point).eq(&correct_normal))
}

#[test]
fn normal_on_y_axis() {
    let sphere = Sphere::<f64>::new(1);
    let point = Tuple::<f64>::new_point(0.0, 1.0, 0.0);
    let correct_normal = Tuple::<f64>::new_vector(0.0, 1.0, 0.0);

    assert!(sphere.normal_at(point).eq(&correct_normal))
}

#[test]
fn normal_on_z_axis() {
    let sphere = Sphere::<f64>::new(1);
    let point = Tuple::<f64>::new_point(0.0, 0.0, 1.0);
    let correct_normal = Tuple::<f64>::new_vector(0.0, 0.0, 1.0);

    assert!(sphere.normal_at(point).eq(&correct_normal))
}

#[test]
fn normal_on_nonaxial_point() {
    let sphere = Sphere::<f64>::new(1);
    let point =
        Tuple::<f64>::new_point(3_f64.sqrt() / 3.0, 3_f64.sqrt() / 3.0, 3_f64.sqrt() / 3.0);
    let correct_normal =
        Tuple::<f64>::new_vector(3_f64.sqrt() / 3.0, 3_f64.sqrt() / 3.0, 3_f64.sqrt() / 3.0);

    assert!(sphere.normal_at(point).eq(&correct_normal))
}

#[test]
fn normal_is_normalized_vector() {
    let sphere = Sphere::<f64>::new(1);
    let n = sphere.normal_at(Tuple::new_point(
        3.0_f64.sqrt() / 3.0,
        3.0_f64.sqrt() / 3.0,
        3.0_f64.sqrt() / 3.0,
    ));

    assert!(n.eq(&n.normalize()))
}
