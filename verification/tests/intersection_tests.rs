use raytracer::intersection::{Intersection, IntersectionObject, Intersections};
use raytracer::ray::Ray;
use raytracer::sphere::Sphere;
use raytracer::tuple::Tuple;

#[test]
fn create_intersection() {
    let sphere = Sphere::<f64>::new(1);
    let intersection = Intersection::<f64, Sphere<f64>>::new(1.0, sphere.clone());

    assert_eq!(intersection.value, 1.0);
    assert!(intersection.object.eq(&sphere))
}

#[test]
fn create_intersections_check_values() {
    let sphere = Sphere::<f64>::new(1);
    let intersection_1 = Intersection::<f64, Sphere<f64>>::new(1.0, sphere.clone());
    let intersection_2 = Intersection::<f64, Sphere<f64>>::new(2.0, sphere.clone());
    let intersections =
        Intersections::<f64, Sphere<f64>, 2>::new([intersection_1, intersection_2]);

    assert_eq!(intersections[0].value, 1.0);
    assert_eq!(intersections[1].value, 2.0)
}

#[test]
fn create_intersection_check_objects() {
    let sphere = Sphere::<f64>::new(1);
    let ray = Ray::<f64>::new(
        Tuple::<f64>::new_point(0.0, 0.0, -5.0),
        Tuple::<f64>::new_vector(0.0, 0.0, 1.0),
    );
    match sphere.intersect(ray) {
        Ok(intersection) => {
            assert!(intersection[0].object.eq(&sphere));
            assert!(intersection[1].object.eq(&sphere))
        }
        Err(_) => {
            assert_eq!(true, false)
        }
    }
}

#[test]
fn return_hit() {
    let sphere = Sphere::<f64>::new(1);
    let intersection_1 = Intersection::<f64, Sphere<f64>>::new(1.0, sphere.clone());
    let intersection_2 = Intersection::<f64, Sphere<f64>>::new(2.0, sphere.clone());

    let intersections =
        Intersections::<f64, Sphere<f64>, 2>::new([intersection_1.clone(), intersection_2]);

    match intersections.hit() {
        None => {
            assert_eq!(true, false)
        }
        Some(inter) => {
            assert!(inter.eq(&intersection_1))
        }
    }
}

#[test]
fn return_hit_some_negative() {
    let sphere = Sphere::<f64>::new(1);
    let intersection_1 = Intersection::<f64, Sphere<f64>>::new(-1.0, sphere.clone());
    let intersection_2 = Intersection::<f64, Sphere<f64>>::new(1.0, sphere.clone());
    let intersections =
        Intersections::<f64, Sphere<f64>, 2>::new([intersection_1, intersection_2.clone()]);

    match intersections.hit() {
        None => {
            assert_eq!(true, false)
        }
        Some(inter) => {
            assert!(inter.eq(&intersection_2))
        }
    }
}

#[test]
fn return_no_hit() {
    let sphere = Sphere::<f64>::new(1);
    let intersection_1 = Intersection::<f64, Sphere<f64>>::new(-2.0, sphere.clone());
    let intersection_2 = Intersection::<f64, Sphere<f64>>::new(-1.0, sphere);
    let intersections =
        Intersections::<f64, Sphere<f64>, 2>::new([intersection_1, intersection_2]);

    match intersections.hit() {
        None => {
            assert_eq!(true, true)
        }
        Some(_) => {
            assert_eq!(true, false)
        }
    }
}

#[test]
fn return_lowest_multiple_intersections() {
    let sphere = Sphere::<f64>::new(1);
    let intersection_1 = Intersection::<f64, Sphere<f64>>::new(5.0, sphere.clone());
    let intersection_2 = Intersection::<f64, Sphere<f64>>::new(7.0, sphere.clone());
    let intersection_3 = Intersection::<f64, Sphere<f64>>::new(-3.0, sphere.clone());
    let intersection_4 = Intersection::<f64, Sphere<f64>>::new(2.0, sphere.clone());
    let intersections = Intersections::<f64, Sphere<f64>, 4>::new([
        intersection_1,
        intersection_2,
        intersection_3,
        intersection_4.clone(),
    ]);

    match intersections.hit() {
        None => {
            assert_eq!(true, false)
        }
        Some(inter) => {
            assert!(intersection_4.eq(&inter))
        }
    }
}
