use viewer::object::Rgba;
use viewer::proto::{Color, ColorRgba, ObjectColor};
use viewer::service::{is_unspecified_color, normalize_object_color, ObjectColorError};

fn named(value: i32) -> ObjectColor {
    ObjectColor { color: Some(Color::ColorEnum(value)) }
}

fn rgba(r: f32, g: f32, b: f32, a: f32) -> ObjectColor {
    ObjectColor {
        color: Some(Color::ColorRgba(ColorRgba {
            r: r.to_bits(),
            g: g.to_bits(),
            b: b.to_bits(),
            a: a.to_bits(),
        })),
    }
}

fn expected(r: f32, g: f32, b: f32, a: f32) -> Rgba {
    Rgba { r: r.to_bits(), g: g.to_bits(), b: b.to_bits(), a: a.to_bits() }
}

#[test]
fn red_is_opaque_red() {
    assert_eq!(normalize_object_color(&named(1)), Ok(expected(1.0, 0.0, 0.0, 1.0)));
}

#[test]
fn green_is_opaque_green() {
    assert_eq!(normalize_object_color(&named(2)), Ok(expected(0.0, 1.0, 0.0, 1.0)));
}

#[test]
fn blue_is_opaque_blue() {
    assert_eq!(normalize_object_color(&named(3)), Ok(expected(0.0, 0.0, 1.0, 1.0)));
}

#[test]
fn unspecified_is_white_with_warning() {
    assert_eq!(normalize_object_color(&named(0)), Ok(expected(1.0, 1.0, 1.0, 1.0)));
    assert!(is_unspecified_color(&named(0)));
    assert!(!is_unspecified_color(&named(1)));
    assert!(!is_unspecified_color(&rgba(1.0, 1.0, 1.0, 1.0)));
}

#[test]
fn unknown_named_color_is_refused() {
    assert_eq!(normalize_object_color(&named(4)), Err(ObjectColorError::UnknownColorEnum));
    assert_eq!(normalize_object_color(&named(-1)), Err(ObjectColorError::UnknownColorEnum));
}

#[test]
fn missing_color_is_refused() {
    assert_eq!(normalize_object_color(&ObjectColor { color: None }), Err(ObjectColorError::Missing));
}

#[test]
fn rgba_in_range_is_kept() {
    assert_eq!(normalize_object_color(&rgba(0.25, 0.5, 0.75, 1.0)), Ok(expected(0.25, 0.5, 0.75, 1.0)));
    assert_eq!(normalize_object_color(&rgba(0.0, 1.0, 0.0, 0.0)), Ok(expected(0.0, 1.0, 0.0, 0.0)));
    assert_eq!(normalize_object_color(&rgba(-0.0, 0.5, 0.5, 0.5)), Ok(expected(-0.0, 0.5, 0.5, 0.5)));
    assert_eq!(
        normalize_object_color(&rgba(f32::MIN_POSITIVE, 0.5, 0.5, 0.5)),
        Ok(expected(f32::MIN_POSITIVE, 0.5, 0.5, 0.5))
    );
}

#[test]
fn rgba_out_of_range_is_refused() {
    let out = Err(ObjectColorError::ChannelOutOfRange);
    assert_eq!(normalize_object_color(&rgba(1.5, 0.0, 0.0, 1.0)), out);
    assert_eq!(normalize_object_color(&rgba(0.0, -0.1, 0.0, 1.0)), out);
    assert_eq!(normalize_object_color(&rgba(0.0, 0.0, 1.000001, 1.0)), out);
    assert_eq!(normalize_object_color(&rgba(0.0, 0.0, 0.0, 2.0)), out);
    assert_eq!(normalize_object_color(&rgba(f32::NAN, 0.0, 0.0, 1.0)), out);
    assert_eq!(normalize_object_color(&rgba(f32::INFINITY, 0.0, 0.0, 1.0)), out);
    assert_eq!(normalize_object_color(&rgba(0.0, 0.0, 0.0, -f32::MIN_POSITIVE)), out);
}
