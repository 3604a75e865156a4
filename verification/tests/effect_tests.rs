//! Tests of effect parameter resolution and color parsing: declared values
//! in thousandths, opacity scaling, defaults, and hex color fallback.

use wlrs::manifest::{ParamEntry, ParamMap, ParamValue, ShaderType};
use wlrs::renderer::models::color::{parse_color, parse_hex_color, Rgba};
use wlrs::renderer::models::effect::{effect_params, param_milli};

fn params(entries: Vec<(&str, ParamValue)>) -> ParamMap {
    ParamMap {
        entries: entries
            .into_iter()
            .map(|(name, value)| ParamEntry { name: name.to_string(), value })
            .collect(),
    }
}

#[test]
fn wave_defaults_scale_with_opacity() {
    // A wave effect at opacity 0.5: the amplitude defaults to 0.2 and the
    // frequency to 0.5, and each is scaled by the opacity.
    let p = params(vec![]);
    let wave = effect_params(&ShaderType::Wave, &p, 500);
    assert_eq!(wave.a_milli, 100);
    assert_eq!(wave.b_milli, 250);
    assert_eq!(wave.strength_milli, 500);
}

#[test]
fn declared_values_override_the_defaults() {
    let p = params(vec![
        ("amplitude", ParamValue::Milli(400)),
        ("frequency", ParamValue::Int(2)),
    ]);
    let wave = effect_params(&ShaderType::Wave, &p, 1000);
    assert_eq!(wave.a_milli, 400);
    assert_eq!(wave.b_milli, 2000);
    assert_eq!(wave.strength_milli, 1000);
}

#[test]
fn glitch_and_gaussian_have_their_own_defaults() {
    let p = params(vec![]);
    let glitch = effect_params(&ShaderType::Glitch, &p, 1000);
    assert_eq!(glitch.a_milli, 500);
    assert_eq!(glitch.b_milli, 300);

    let blur = effect_params(&ShaderType::Gaussian, &p, 1000);
    assert_eq!(blur.a_milli, 3500);
    assert_eq!(blur.b_milli, 0);

    let custom = effect_params(&ShaderType::Custom("mine".to_string()), &p, 700);
    assert_eq!(custom.a_milli, 0);
    assert_eq!(custom.strength_milli, 700);
}

#[test]
fn wrongly_typed_parameters_fall_back_to_the_default() {
    let p = params(vec![("radius", ParamValue::Text("wide".to_string()))]);
    assert_eq!(param_milli(&p, "radius", 3500), 3500);
    let p = params(vec![("radius", ParamValue::Int(2))]);
    assert_eq!(param_milli(&p, "radius", 3500), 2000);
    let p = params(vec![("radius", ParamValue::Flag(true))]);
    assert_eq!(param_milli(&p, "radius", 3500), 3500);
    assert_eq!(param_milli(&p, "missing", 42), 42);
}

#[test]
fn opacity_above_full_is_clamped() {
    let p = params(vec![]);
    let wave = effect_params(&ShaderType::Wave, &p, 5000);
    assert_eq!(wave.strength_milli, 1000);
    assert_eq!(wave.a_milli, 200);
}

#[test]
fn hex_colors_parse_exactly_or_fall_back_to_black() {
    assert_eq!(
        parse_hex_color("#ff0080"),
        Rgba { red: 255, green: 0, blue: 128, alpha: 255 }
    );
    assert_eq!(
        parse_hex_color("#1A2b3C"),
        Rgba { red: 26, green: 43, blue: 60, alpha: 255 }
    );
    assert_eq!(
        parse_hex_color("#000000"),
        Rgba { red: 0, green: 0, blue: 0, alpha: 255 }
    );
    let black = Rgba { red: 0, green: 0, blue: 0, alpha: 255 };
    assert_eq!(parse_hex_color("red"), black);
    assert_eq!(parse_hex_color("#12345"), black);
    assert_eq!(parse_hex_color("#1234567"), black);
    assert_eq!(parse_hex_color("#12g456"), black);
    assert_eq!(parse_hex_color(""), black);
}

#[test]
fn functional_colors_parse_exactly_or_fall_back() {
    assert_eq!(
        parse_color("rgba(255, 0, 0, 0.5)"),
        Rgba { red: 255, green: 0, blue: 0, alpha: 127 }
    );
    assert_eq!(
        parse_color("rgba(0,128,64,1)"),
        Rgba { red: 0, green: 128, blue: 64, alpha: 255 }
    );
    assert_eq!(
        parse_color("rgba( 12 , 34 , 56 , 0.25 )"),
        Rgba { red: 12, green: 34, blue: 56, alpha: 63 }
    );
    assert_eq!(parse_color("rgba(1,2,3,0)").alpha, 0);
    assert_eq!(parse_color("rgba(1,2,3,.5)").alpha, 127);
    // Only the first three fractional digits count.
    assert_eq!(parse_color("rgba(1,2,3,0.1234)").alpha, 31);
    // Alpha clamps to one.
    assert_eq!(parse_color("rgba(9,9,9,2)").alpha, 255);
    assert_eq!(parse_color("rgba(9,9,9,1.5)").alpha, 255);
    // The hex form still parses through the same entry point.
    assert_eq!(
        parse_color("#ff0080"),
        Rgba { red: 255, green: 0, blue: 128, alpha: 255 }
    );

    let black = Rgba { red: 0, green: 0, blue: 0, alpha: 255 };
    assert_eq!(parse_color("rgba(256,0,0,1)"), black);
    assert_eq!(parse_color("rgba(1,2,3)"), black);
    assert_eq!(parse_color("rgba(1,2,3,4,5)"), black);
    assert_eq!(parse_color("rgba(1,2,x,1)"), black);
    assert_eq!(parse_color("rgba(1,2,3,.)"), black);
    assert_eq!(parse_color("rgba(1,2,3,1"), black);
    assert_eq!(parse_color("transparent"), black);
}
