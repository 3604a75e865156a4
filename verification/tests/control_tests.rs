//! Tests of control-request handling over the live display set: targeting
//! one or all monitors, the missing-monitor error, the active-wallpaper
//! query, and wallpaper lookup by name.

use wlrs::renderer::client::{
    set_wallpaper_targets, wallpaper_set_err, wallpaper_set_ok, Wallpapers,
};
use wlrs::renderer::pipeline::Pipelines;
use wlrs::renderer::wallpaper_layer::WallpaperLayer;
use wlrs::types::WallpaperInfo;
use wlrs::utils::find_wallpaper_by_name;

fn two_displays() -> Wallpapers {
    let mut a = WallpaperLayer::new("eDP-1".to_string());
    a.set_size(1920, 1080);
    let mut b = WallpaperLayer::new("HDMI-A-1".to_string());
    b.set_size(2560, 1440);
    Wallpapers(vec![a, b])
}

#[test]
fn missing_monitor_yields_an_error_naming_it() {
    let wallpapers = two_displays();
    let result = set_wallpaper_targets(&wallpapers, &Some("DP-1".to_string()));
    match result {
        Err(message) => assert_eq!(message, "Monitor 'DP-1' not found"),
        Ok(_) => panic!("a request for an unknown monitor must fail"),
    }
    // Nothing was touched: both displays still hold their empty assemblies.
    assert_eq!(wallpapers.0.len(), 2);
    assert!(wallpapers.0[0].wallpaper.empty());
    assert!(wallpapers.0[1].wallpaper.empty());
}

#[test]
fn a_named_monitor_targets_only_itself() {
    let wallpapers = two_displays();
    let targets = set_wallpaper_targets(&wallpapers, &Some("HDMI-A-1".to_string())).unwrap();
    assert_eq!(targets, vec![1]);
}

#[test]
fn no_monitor_targets_every_display() {
    let wallpapers = two_displays();
    let targets = set_wallpaper_targets(&wallpapers, &None).unwrap();
    assert_eq!(targets, vec![0, 1]);
}

#[test]
fn applying_a_wallpaper_rederives_the_pacing() {
    let mut wallpapers = two_displays();
    wallpapers.apply_wallpaper_at(0, Pipelines::new(), 30, -1);
    let layer = &wallpapers.0[0];
    assert!(layer.damaged);
    assert_eq!(layer.frames_per_update, 2);
    assert_eq!(layer.ticks_per_update, 0);
    // The other display is untouched.
    assert_eq!(wallpapers.0[1].frames_per_update, 1);
}

#[test]
fn active_wallpapers_report_names_and_sizes() {
    let wallpapers = two_displays();
    let active = wallpapers.active_wallpapers();
    assert_eq!(active.len(), 2);
    assert_eq!(active[0].output_name, "eDP-1");
    assert_eq!(active[0].width, 1920);
    assert_eq!(active[0].height, 1080);
    assert_eq!(active[1].output_name, "HDMI-A-1");
    assert_eq!(active[1].width, 2560);
    assert_eq!(active[1].height, 1440);
}

#[test]
fn responses_carry_the_success_flag_and_error() {
    let ok = wallpaper_set_ok("aurora".to_string());
    assert!(ok.success);
    assert!(ok.error.is_none());
    let err = wallpaper_set_err("aurora".to_string(), "Wallpaper not found".to_string());
    assert!(!err.success);
    assert_eq!(err.error.as_deref(), Some("Wallpaper not found"));
    assert_eq!(err.name, "aurora");
}

#[test]
fn wallpaper_lookup_finds_the_first_match() {
    let infos = vec![
        WallpaperInfo { name: "aurora".to_string(), path: "/w/aurora".to_string() },
        WallpaperInfo { name: "ocean".to_string(), path: "/w/ocean".to_string() },
        WallpaperInfo { name: "aurora".to_string(), path: "/w/aurora-copy".to_string() },
    ];
    let found = find_wallpaper_by_name(&infos, "aurora").unwrap();
    assert_eq!(found.path, "/w/aurora");
    assert_eq!(find_wallpaper_by_name(&infos, "ocean").unwrap().path, "/w/ocean");
    assert!(find_wallpaper_by_name(&infos, "void").is_none());
}
