use raytracer::color::Color;

#[test]
fn creating_color() {
    let color = Color::new(-0.5, 0.4, 1.7);

    assert_eq!(color.red, -0.5);
    assert_eq!(color.green, 0.4);
    assert_eq!(color.blue, 1.7);
}

#[test]
fn adding_colors() {
    let color1 = Color::new(0.9, 0.6, 0.75);
    let color2 = Color::new(0.7, 0.1, 0.25);
    let color_correct = Color::new(1.6, 0.7, 1.0);

    assert!((color1 + color2).eq(&color_correct));
}

#[test]
fn subtracting_colors() {
    let color1 = Color::new(0.9, 0.6, 0.75);
    let color2 = Color::new(0.7, 0.1, 0.25);
    let color_correct = Color::new(0.2, 0.5, 0.5);

    assert!((color1 - color2).eq(&color_correct));
}

#[test]
fn multiplying_colors_by_scalar() {
    let color = Color::new(0.2, 0.3, 0.4);
    let color_correct = Color::new(0.4, 0.6, 0.8);

    assert!((color * 2.0).eq(&color_correct));
}

#[test]
fn multiplying_colors() {
    let color1 = Color::new(1.0, 0.2, 0.4);
    let color2 = Color::new(0.9, 1.0, 0.1);
    let color_correct = Color::new(0.9, 0.2, 0.04);

    assert!((color1 * color2).eq(&color_correct));
}
