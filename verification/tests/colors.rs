use simplecolor::Channel;
use simplecolor::Color;
use simplecolor::Frac;
use simplecolor::Rgb;
use simplecolor::Rgba;

fn frac(num: i128, den: i128) -> Frac {
    Frac::new(num, den)
}

fn assert_rgb_values(col: &Rgb<Frac>, r: Frac, g: Frac, b: Frac) {
    assert!(col.r().same_value(r));
    assert!(col.g().same_value(g));
    assert!(col.b().same_value(b));
}

#[test]
fn color_creation_no_clamping() {
    let col = Rgba::with_components(frac(5, 10), frac(2, 10), frac(2, 10), frac(7, 10));
    assert!(col.r().same_value(frac(5, 10)));
    assert!(col.g().same_value(frac(2, 10)));
    assert!(col.b().same_value(frac(2, 10)));
    assert!(col.a().same_value(frac(7, 10)));
}

#[test]
fn addition_no_clamping_effects() {
    let col_a = Rgba::with_components(frac(2, 10), frac(2, 10), frac(3, 10), frac(3, 10));
    let col_b = Rgba::with_components(frac(3, 10), frac(3, 10), frac(2, 10), frac(2, 10));

    let col_c = col_a.add(&col_b);
    assert!(col_c.r().same_value(frac(5, 10)));
    assert!(col_c.g().same_value(frac(5, 10)));
    assert!(col_c.b().same_value(frac(5, 10)));
    assert!(col_c.a().same_value(frac(5, 10)));
}

#[test]
fn test_color_addition_works() {
    let col1 = Rgb::with_components(1u32, 2, 3);
    let col2 = Rgb::with_components(10u32, 20, 30);
    let result = col1.add(&col2);
    assert_eq!(result.r(), col1.r() + col2.r());
    assert_eq!(result.g(), col1.g() + col2.g());
    assert_eq!(result.b(), col1.b() + col2.b());

    let col3 = Rgb::with_components(frac(1, 2), frac(1, 4), frac(1, 8));
    let col4 = Rgb::with_components(frac(1, 4), frac(1, 4), frac(1, 4));
    let sum = col3.add(&col4);
    assert_rgb_values(&sum, frac(3, 4), frac(1, 2), frac(3, 8));
}

#[test]
fn test_color_division_works() {
    let col1 = Rgb::with_components(10u32, 20, 30);
    let col2 = Rgb::with_components(2u32, 5, 3);
    let result = col1.div(&col2);
    assert_eq!(result.r(), col1.r() / col2.r());
    assert_eq!(result.g(), col1.g() / col2.g());
    assert_eq!(result.b(), col1.b() / col2.b());

    let col3 = Rgb::with_components(frac(1, 2), frac(3, 4), frac(1, 8));
    let col4 = Rgb::with_components(frac(1, 4), frac(1, 2), frac(1, 2));
    let quotient = col3.div(&col4);
    assert_rgb_values(&quotient, frac(2, 1), frac(3, 2), frac(1, 4));
}

#[test]
fn test_color_multiplication_works() {
    let col1 = Rgb::with_components(2u32, 5, 7);
    let col2 = Rgb::with_components(3u32, 4, 6);
    let result = col1.mul(&col2);
    assert_eq!(result.r(), col1.r() * col2.r());
    assert_eq!(result.g(), col1.g() * col2.g());
    assert_eq!(result.b(), col1.b() * col2.b());

    let col3 = Rgb::with_components(frac(1, 2), frac(3, 4), frac(2, 3));
    let col4 = Rgb::with_components(frac(1, 2), frac(2, 3), frac(3, 4));
    let product = col3.mul(&col4);
    assert_rgb_values(&product, frac(1, 4), frac(1, 2), frac(1, 2));
}

#[test]
fn test_color_subtraction_works() {
    let col1 = Rgb::with_components(10u32, 20, 30);
    let col2 = Rgb::with_components(1u32, 2, 3);
    let result = col1.sub(&col2);
    assert_eq!(result.r(), col1.r() - col2.r());
    assert_eq!(result.g(), col1.g() - col2.g());
    assert_eq!(result.b(), col1.b() - col2.b());

    let col3 = Rgb::with_components(frac(1, 2), frac(3, 4), frac(2, 3));
    let col4 = Rgb::with_components(frac(1, 4), frac(1, 4), frac(1, 3));
    let difference = col3.sub(&col4);
    assert_rgb_values(&difference, frac(1, 4), frac(1, 2), frac(1, 3));
}

#[test]
fn test_floating_color_normalisation_works() {
    let col = Rgb::with_components(frac(-1, 2), frac(3, 2), frac(1, 2));
    let normalised = col.normalise();
    let zero = frac(0, 1);
    let one = frac(1, 1);
    assert!(zero.le(normalised.r()) && normalised.r().le(one));
    assert!(zero.le(normalised.g()) && normalised.g().le(one));
    assert!(zero.le(normalised.b()) && normalised.b().le(one));
    assert_rgb_values(&normalised, zero, one, frac(1, 2));
}

#[test]
fn test_color_scalar_clamping_works() {
    // Channels (0.1, 0.9, 1.5) clamped between 0 and 1 give (0.1, 0.9, 1.0).
    let col = Rgb::with_components(frac(1, 10), frac(9, 10), frac(15, 10));
    let clamped = col.clamp_scalar(frac(0, 1), frac(1, 1));
    assert_rgb_values(&clamped, frac(1, 10), frac(9, 10), frac(1, 1));

    let col2 = Rgb::with_components(5u8, 100, 200);
    let clamped2 = col2.clamp_scalar(10u8, 150);
    assert_eq!(clamped2.components(), (10, 100, 150));
}

#[test]
fn test_color_color_clamping_works() {
    let col = Rgb::with_components(5u8, 100, 200);
    let min = Rgb::with_components(10u8, 0, 0);
    let max = Rgb::with_components(20u8, 150, 150);
    let clamped = col.clamp_color(&min, &max);
    assert_eq!(clamped.components(), (10, 100, 150));

    let colf = Rgb::with_components(frac(1, 2), frac(1, 10), frac(9, 10));
    let minf = Rgb::with_components(frac(0, 1), frac(1, 4), frac(0, 1));
    let maxf = Rgb::with_components(frac(1, 4), frac(1, 1), frac(1, 2));
    let clampedf = colf.clamp_color(&minf, &maxf);
    assert_rgb_values(&clampedf, frac(1, 4), frac(1, 4), frac(1, 2));
}

#[test]
fn rgb_addition_scenario() {
    let sum = Rgb::with_components(frac(2, 10), frac(2, 10), frac(3, 10)).add(
        &Rgb::with_components(frac(3, 10), frac(3, 10), frac(2, 10)),
    );
    assert_rgb_values(&sum, frac(5, 10), frac(5, 10), frac(5, 10));
}

#[test]
fn rgba_addition_works_on_alpha_too() {
    let col1 = Rgba::with_components(1u32, 2, 3, 4);
    let col2 = Rgba::with_components(10u32, 20, 30, 40);
    let sum = col1.add(&col2);
    assert_eq!(sum.components(), (11, 22, 33, 44));
    let diff = col2.sub(&col1);
    assert_eq!(diff.components(), (9, 18, 27, 36));
    let product = col1.mul(&col2);
    assert_eq!(product.components(), (10, 40, 90, 160));
    let quotient = col2.div(&col1);
    assert_eq!(quotient.components(), (10, 10, 10, 10));
}

#[test]
fn inverting_u8_color_flips_every_channel() {
    let col = Rgb::with_components(0u8, 255, 100);
    let inverted = col.invert();
    assert_eq!(inverted.components(), (255, 0, 155));
    let col4a = Rgba::with_components(0u8, 255, 100, 10);
    let inverted4 = col4a.invert();
    assert_eq!(inverted4.components(), (255, 0, 155, 245));
}

#[test]
fn new_color_is_black() {
    let rgb: Rgb<u8> = Rgb::new();
    assert_eq!(rgb.components(), (0, 0, 0));
    let rgba: Rgba<u8> = Rgba::new();
    // A new Rgba color is fully opaque: the alpha channel has full intensity.
    assert_eq!(rgba.components(), (0, 0, 0, 255));
    let defaulted: Rgb<u8> = Default::default();
    assert_eq!(defaulted.components(), (0, 0, 0));
    let defaulted4: Rgba<u8> = Default::default();
    assert_eq!(defaulted4.components(), (0, 0, 0, 255));
}

#[test]
fn slices_and_tuples_round_trip() {
    let col = Rgb::from_slice([1u8, 2, 3]);
    assert_eq!(col.components(), (1, 2, 3));
    assert_eq!(col.to_slice(), [1, 2, 3]);
    let col4 = Rgba::from_slice([1u8, 2, 3, 4]);
    assert_eq!(col4.components(), (1, 2, 3, 4));
    assert_eq!(col4.to_slice(), [1, 2, 3, 4]);
}

#[test]
fn setters_replace_one_channel() {
    let mut col = Rgb::with_components(1u8, 2, 3);
    col.set_r(10);
    col.set_g(20);
    col.set_b(30);
    assert_eq!(col.components(), (10, 20, 30));
    let mut col4 = Rgba::with_components(1u8, 2, 3, 4);
    col4.set_r(10);
    col4.set_g(20);
    col4.set_b(30);
    col4.set_a(40);
    assert_eq!(col4.components(), (10, 20, 30, 40));
}

#[test]
fn rgb_and_rgba_convert_into_each_other() {
    let rgb = Rgb::with_components(1u8, 2, 3);
    let rgba = rgb.rgba(4);
    assert_eq!(rgba.components(), (1, 2, 3, 4));
    assert_eq!(rgba.rgb().components(), (1, 2, 3));
}

#[test]
fn mix_is_piecewise_addition() {
    let col1 = Rgb::with_components(1u8, 2, 3);
    let col2 = Rgb::with_components(10u8, 20, 30);
    assert_eq!(col1.mix(&col2).components(), (11, 22, 33));
    let col3 = Rgba::with_components(1u8, 2, 3, 4);
    let col4 = Rgba::with_components(10u8, 20, 30, 40);
    assert_eq!(col3.mix(&col4).components(), (11, 22, 33, 44));
}

#[test]
fn luminance_and_greyscale_are_stubs() {
    let col = Rgb::with_components(1u8, 2, 3);
    assert_eq!(col.luminance(), 0);
    assert_eq!(col.to_greyscale().components(), (1, 2, 3));
    let col4 = Rgba::with_components(1u8, 2, 3, 4);
    assert_eq!(col4.luminance(), 0);
    assert_eq!(col4.to_greyscale().components(), (1, 2, 3, 4));
}

#[test]
fn integral_components_scale_onto_unit_interval() {
    let col = Rgb::from_integral_components(51u8, 102, 255);
    assert_rgb_values(&col, frac(1, 5), frac(2, 5), frac(1, 1));
    let col2 = Rgb::from_integral_slice([0u16, 0xFFFF, 0x8000]);
    assert!(col2.r().same_value(frac(0, 1)));
    assert!(col2.g().same_value(frac(1, 1)));
    assert_eq!(col2.b().num, 0x8000);
    assert_eq!(col2.b().den, 0xFFFF);

    let col3 = Rgba::from_integral_components(51u8, 102, 153, 255);
    assert!(col3.r().same_value(frac(1, 5)));
    assert!(col3.g().same_value(frac(2, 5)));
    assert!(col3.b().same_value(frac(3, 5)));
    assert!(col3.a().same_value(frac(1, 1)));
    let col4 = Rgba::from_integral_slice([0u32, u32::MAX, 0, u32::MAX]);
    assert!(col4.r().same_value(frac(0, 1)));
    assert!(col4.g().same_value(frac(1, 1)));
    assert!(col4.b().same_value(frac(0, 1)));
    assert!(col4.a().same_value(frac(1, 1)));
}
