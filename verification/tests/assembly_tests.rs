//! Tests of pipeline assembly's ordering and classification: layers sort
//! stably by z-index and project into exactly one renderable kind each.

use wlrs::manifest::{
    stable_z_order, EffectType, Layer, ParamEntry, ParamMap, ParamValue, LayerContent, ScaleMode,
    ShaderType, WallpaperManifest,
};
use wlrs::utils::sorted_order;
use wlrs::wallpaper::{LayerType, RenderLayer, Wallpaper, WallpaperDirectory};

fn marker_layer(name: &str, z_index: i32) -> Layer {
    Layer {
        name: name.to_string(),
        content: LayerContent::Color("#000000".to_string()),
        effect_type: None,
        z_index,
        opacity_milli: 1000,
        params: ParamMap::new(),
    }
}

#[test]
fn z_order_is_ascending_and_stable() {
    // Content markers A, B, C, D with z-indices [10, -1000, 5, -1000]: the
    // two -1000 entries must keep their original relative order.
    let layers = vec![
        marker_layer("A", 10),
        marker_layer("B", -1000),
        marker_layer("C", 5),
        marker_layer("D", -1000),
    ];
    let manifest = WallpaperManifest {
        name: "order".to_string(),
        author: String::new(),
        version: "1.0.0".to_string(),
        description: String::new(),
        framerate: 30,
        tickrate: -1,
        scale_mode: ScaleMode::Fill,
        layers,
    };
    let sorted = manifest.get_sorted_layers();
    let names: Vec<&str> = sorted.iter().map(|l| l.name.as_str()).collect();
    assert_eq!(names, vec!["B", "D", "C", "A"]);
}

#[test]
fn sorted_order_lists_every_index_once() {
    let zs = vec![3, 1, 2, 1, 3, 1];
    let order = sorted_order(&zs);
    assert_eq!(order, vec![1, 3, 5, 2, 0, 4]);
}

#[test]
fn layers_project_into_their_renderable_kinds() {
    let color = marker_layer("bg", -1000);
    let projected = RenderLayer::from_manifest_layer(&color, "/wp");
    assert!(matches!(projected.layer_type, LayerType::Color { .. }));

    let image = Layer {
        name: "picture".to_string(),
        content: LayerContent::Image("art.png".to_string()),
        effect_type: None,
        z_index: -999,
        opacity_milli: 1000,
        params: ParamMap::new(),
    };
    let projected = RenderLayer::from_manifest_layer(&image, "/wp");
    match &projected.layer_type {
        LayerType::Image { image_path } => assert_eq!(image_path, "/wp/art.png"),
        _ => panic!("an image layer must project to an image kind"),
    }

    let empty = Layer {
        name: "spacer".to_string(),
        content: LayerContent::Empty,
        effect_type: None,
        z_index: 0,
        opacity_milli: 1000,
        params: ParamMap::new(),
    };
    let projected = RenderLayer::from_manifest_layer(&empty, "/wp");
    match &projected.layer_type {
        LayerType::Color { color } => assert_eq!(color, "transparent"),
        _ => panic!("an empty layer must project to a transparent color"),
    }

    let shader = Layer {
        name: "waves".to_string(),
        content: LayerContent::Image("water.png".to_string()),
        effect_type: Some(EffectType::Shader(ShaderType::Wave)),
        z_index: 5,
        opacity_milli: 500,
        params: ParamMap::new(),
    };
    let projected = RenderLayer::from_manifest_layer(&shader, "/wp");
    match &projected.layer_type {
        LayerType::Shader { shader_type, image_path, .. } => {
            assert!(matches!(shader_type, ShaderType::Wave));
            assert_eq!(image_path.as_deref(), Some("/wp/water.png"));
        },
        _ => panic!("a shader layer must project to a shader kind"),
    }
    assert_eq!(projected.opacity_milli, 500);

    let particles = Layer {
        name: "sparks".to_string(),
        content: LayerContent::Image("spark.png".to_string()),
        effect_type: Some(EffectType::Particles),
        z_index: 7,
        opacity_milli: 1000,
        params: ParamMap {
            entries: vec![ParamEntry {
                name: "script".to_string(),
                value: ParamValue::Text("spark.lua".to_string()),
            }],
        },
    };
    let projected = RenderLayer::from_manifest_layer(&particles, "/wp");
    match &projected.layer_type {
        LayerType::Particle { image_path, script_path, .. } => {
            assert_eq!(image_path, "/wp/spark.png");
            assert_eq!(script_path.as_deref(), Some("/wp/spark.lua"));
        },
        _ => panic!("a particle layer must project to a particle kind"),
    }
}

#[test]
fn wallpaper_projects_layers_in_painting_order() {
    let manifest = WallpaperManifest {
        name: "scene".to_string(),
        author: String::new(),
        version: "1.0.0".to_string(),
        description: String::new(),
        framerate: 30,
        tickrate: -1,
        scale_mode: ScaleMode::Fill,
        layers: vec![
            Layer {
                name: "waves".to_string(),
                content: LayerContent::Image("water.png".to_string()),
                effect_type: Some(EffectType::Shader(ShaderType::Wave)),
                z_index: 5,
                opacity_milli: 500,
                params: ParamMap::new(),
            },
            Layer {
                name: "backdrop".to_string(),
                content: LayerContent::Image("bg.png".to_string()),
                effect_type: None,
                z_index: -999,
                opacity_milli: 1000,
                params: ParamMap::new(),
            },
        ],
    };
    let wallpaper = Wallpaper { manifest, path: "/wallpapers/scene".to_string() };
    let projected = wallpaper.get_layers();
    assert_eq!(projected.len(), 2);
    assert_eq!(projected[0].name, "backdrop");
    assert_eq!(projected[1].name, "waves");
    match &projected[0].layer_type {
        LayerType::Image { image_path } => {
            assert_eq!(image_path, "/wallpapers/scene/bg.png");
        },
        _ => panic!("the backdrop must project to an image kind"),
    }

    let order = stable_z_order(&wallpaper.manifest.layers);
    assert_eq!(order, vec![1, 0]);

    assert_eq!(wallpaper.name(), "scene");
    assert_eq!(wallpaper.framerate(), 30);
    assert_eq!(wallpaper.tickrate(), -1);
    assert_eq!(wallpaper.asset_path("bg.png"), "/wallpapers/scene/bg.png");
    assert_eq!(wallpaper.layer(0).unwrap().name, "waves");
    assert!(wallpaper.layer(2).is_none());
    assert_eq!(wallpaper.layer_by_name("backdrop").unwrap().z_index, -999);
    assert_eq!(wallpaper.effect_layers().len(), 1);
    assert_eq!(wallpaper.manifest.get_background_layers().len(), 1);

    let dir = WallpaperDirectory::new("/wallpapers".to_string());
    assert_eq!(dir.wallpaper_path("scene"), "/wallpapers/scene");
}
