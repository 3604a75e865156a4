//! Tests of the wallpaper model: defaults, animation classification, rate
//! strings, and layer constructors.

use wlrs::manifest::{
    default_fps, default_opacity_milli, default_tps, default_version, default_z_index,
    framerate_of_str, parse_i32, tickrate_of_str, EffectType, Layer, LayerContent, ParamMap,
    ScaleMode, ShaderType, WallpaperManifest,
};

fn empty_manifest(framerate: i32, tickrate: i32, layers: Vec<Layer>) -> WallpaperManifest {
    WallpaperManifest {
        name: "Test Wallpaper".to_string(),
        author: "Test Author".to_string(),
        version: "1.0.0".to_string(),
        description: "Test Description".to_string(),
        framerate,
        tickrate,
        scale_mode: ScaleMode::Fill,
        layers,
    }
}

#[test]
fn test_tickrate_defaults() {
    let manifest = empty_manifest(30, -1, vec![]);
    assert_eq!(manifest.framerate, 30);
    assert_eq!(manifest.get_tickrate(), -1);

    let manifest_with_tickrate = empty_manifest(30, 60, vec![]);
    assert_eq!(manifest_with_tickrate.get_tickrate(), 60);

    let compositor_static = empty_manifest(-1, 0, vec![]);
    assert_eq!(compositor_static.framerate, -1);
    assert_eq!(compositor_static.get_tickrate(), 0);

    let compositor_both = empty_manifest(-1, -1, vec![]);
    assert_eq!(compositor_both.framerate, -1);
    assert_eq!(compositor_both.get_tickrate(), -1);
}

#[test]
fn test_is_animated() {
    let effect_layer = Layer {
        name: "test_effect".to_string(),
        content: LayerContent::Empty,
        effect_type: Some(EffectType::Shader(ShaderType::Wave)),
        z_index: 0,
        opacity_milli: 1000,
        params: ParamMap::new(),
    };

    let non_animated = empty_manifest(0, 0, vec![effect_layer.clone()]);
    assert!(!non_animated.is_animated());

    let animated_by_framerate = empty_manifest(30, 0, vec![effect_layer.clone()]);
    assert!(animated_by_framerate.is_animated());

    let animated_by_tickrate = empty_manifest(0, 60, vec![effect_layer.clone()]);
    assert!(animated_by_tickrate.is_animated());

    let animated_by_compositor = empty_manifest(-1, -1, vec![effect_layer.clone()]);
    assert!(animated_by_compositor.is_animated());

    let plain_layer = Layer {
        name: "no_effect".to_string(),
        content: LayerContent::Color("#000000".to_string()),
        effect_type: None,
        z_index: 0,
        opacity_milli: 1000,
        params: ParamMap::new(),
    };

    let no_effects = empty_manifest(30, 60, vec![plain_layer.clone()]);
    assert!(!no_effects.is_animated());

    let compositor_no_effects = empty_manifest(-1, -1, vec![plain_layer]);
    assert!(!compositor_no_effects.is_animated());
}

fn rates_from_toml(text: &str) -> (i32, i32) {
    let table: toml::Table = toml::from_str(text).unwrap();
    let framerate = match &table["framerate"] {
        toml::Value::String(s) => framerate_of_str(s).unwrap(),
        toml::Value::Integer(v) => *v as i32,
        other => panic!("unexpected framerate value: {other:?}"),
    };
    let tickrate = match &table["tickrate"] {
        toml::Value::String(s) => tickrate_of_str(s).unwrap(),
        toml::Value::Integer(v) => *v as i32,
        other => panic!("unexpected tickrate value: {other:?}"),
    };
    (framerate, tickrate)
}

#[test]
fn test_string_rate_deserialization() {
    let toml_str = r#"
        name = "String Values Test"
        author = "Test Author"
        version = "1.0.0"
        framerate = "compositor"
        tickrate = "static"
    "#;
    let (framerate, tickrate) = rates_from_toml(toml_str);
    assert_eq!(framerate, -1);
    assert_eq!(tickrate, 0);

    let toml_str = r#"
        name = "Default Values Test"
        author = "Test Author"
        version = "1.0.0"
        framerate = "default"
        tickrate = "default"
    "#;
    let (framerate, tickrate) = rates_from_toml(toml_str);
    assert_eq!(framerate, 30);
    assert_eq!(tickrate, -1);

    let toml_str = r#"
        name = "Mixed Values Test"
        author = "Test Author"
        version = "1.0.0"
        framerate = 60
        tickrate = "compositor"
    "#;
    let (framerate, tickrate) = rates_from_toml(toml_str);
    assert_eq!(framerate, 60);
    assert_eq!(tickrate, -1);
}

#[test]
fn string_rates_map_to_special_values() {
    assert_eq!(framerate_of_str("compositor"), Some(-1));
    assert_eq!(framerate_of_str("static"), Some(0));
    assert_eq!(framerate_of_str("default"), Some(30));
    assert_eq!(framerate_of_str("DEFAULT"), Some(30));
    assert_eq!(framerate_of_str("60"), Some(60));
    assert_eq!(framerate_of_str("nonsense"), None);

    assert_eq!(tickrate_of_str("compositor"), Some(-1));
    assert_eq!(tickrate_of_str("static"), Some(0));
    assert_eq!(tickrate_of_str("default"), Some(-1));
    assert_eq!(tickrate_of_str("Compositor"), Some(-1));
    assert_eq!(tickrate_of_str("15"), Some(15));
}

#[test]
fn numeric_parsing_is_exact() {
    assert_eq!(parse_i32("0"), Some(0));
    assert_eq!(parse_i32("30"), Some(30));
    assert_eq!(parse_i32("-1"), Some(-1));
    assert_eq!(parse_i32("+5"), Some(5));
    assert_eq!(parse_i32("2147483647"), Some(i32::MAX));
    assert_eq!(parse_i32("-2147483648"), Some(i32::MIN));
    assert_eq!(parse_i32("2147483648"), None);
    assert_eq!(parse_i32("-2147483649"), None);
    assert_eq!(parse_i32(""), None);
    assert_eq!(parse_i32("-"), None);
    assert_eq!(parse_i32("12a"), None);
    assert_eq!(parse_i32("99999999999999999999"), None);
}

#[test]
fn defaults_match_the_documented_values() {
    assert_eq!(default_version(), "1.0.0".to_string());
    assert_eq!(default_fps(), 30);
    assert_eq!(default_tps(), -1);
    assert_eq!(default_z_index(), 0);
    assert_eq!(default_opacity_milli(), 1000);
}

#[test]
fn content_classification_reads_colors_and_images() {
    assert!(matches!(
        LayerContent::classify("#102030".to_string()),
        LayerContent::Color(_)
    ));
    assert!(matches!(
        LayerContent::classify("rgba(1,2,3,0.5)".to_string()),
        LayerContent::Color(_)
    ));
    assert!(matches!(
        LayerContent::classify("backdrop.png".to_string()),
        LayerContent::Image(_)
    ));
}

#[test]
fn background_constructors_set_the_documented_fields() {
    let color = Layer::new_background_color("#112233");
    assert_eq!(color.name, "background".to_string());
    assert_eq!(color.z_index, -1000);
    assert_eq!(color.opacity_milli, 1000);
    assert!(color.is_background());

    let image = Layer::new_background_image("bg.png");
    assert_eq!(image.z_index, -999);
    assert!(matches!(image.content, LayerContent::Image(_)));
    assert!(image.is_background());

    let fx = Layer::new_effect("waves", EffectType::Shader(ShaderType::Wave), LayerContent::Empty, 5);
    assert_eq!(fx.z_index, 5);
    assert!(!fx.is_background());

    let named_background = Layer::new_effect(
        "my background fx",
        EffectType::Particles,
        LayerContent::Empty,
        5,
    );
    assert!(named_background.is_background());
}
