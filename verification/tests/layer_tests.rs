//! Tests of the display layer's pacing: rate derivation, the draw
//! decision, surface sizing, and the service-interval hints.

use wlrs::renderer::wallpaper_layer::{rate_divisor, DrawDecision, WallpaperLayer};
use wlrs::renderer::client::Wallpapers;
use wlrs::OutputConfig;

#[test]
fn rate_derivation_matches_the_documented_table() {
    // Declared 30 against native 60: redraw every second frame.
    assert_eq!(rate_divisor(30, 60), 2);
    // Any negative declaration is compositor-driven.
    assert_eq!(rate_divisor(-1, 60), 0);
    assert_eq!(rate_divisor(-77, 60), 0);
    // Zero means never automatically.
    assert_eq!(rate_divisor(0, 60), u32::MAX);
    // At or above the native rate: every frame.
    assert_eq!(rate_divisor(90, 60), 1);
    assert_eq!(rate_divisor(60, 60), 1);
    // Other slower rates divide the native rate.
    assert_eq!(rate_divisor(15, 60), 4);
    assert_eq!(rate_divisor(7, 60), 8);
}

#[test]
fn setters_store_the_derived_divisors() {
    let mut layer = WallpaperLayer::new("eDP-1".to_string());
    layer.set_framerate(30);
    layer.set_tickrate(0);
    assert_eq!(layer.frames_per_update, 2);
    assert_eq!(layer.ticks_per_update, u32::MAX);
}

#[test]
fn an_empty_layer_never_touches_the_gpu() {
    let mut layer = WallpaperLayer::new("eDP-1".to_string());
    // Damaged but with nothing to draw: every tick is skipped.
    for now in 1..50u64 {
        assert!(matches!(layer.draw_update(now), DrawDecision::Skip));
    }
}

#[test]
fn set_size_ignores_unchanged_sizes() {
    let mut layer = WallpaperLayer::new("eDP-1".to_string());
    assert!(layer.set_size(800, 600));
    assert!(layer.damaged);
    layer.damaged = false;
    assert!(!layer.set_size(800, 600));
    assert!(!layer.damaged);
    assert!(layer.set_size(800, 601));
    assert!(layer.damaged);
}

#[test]
fn configure_marks_the_layer_ready_and_damaged() {
    let mut layer = WallpaperLayer::new("eDP-1".to_string());
    layer.damaged = false;
    assert!(!layer.configured);
    layer.configure();
    assert!(layer.configured);
    assert!(layer.damaged);
}

#[test]
fn update_interval_takes_the_faster_declared_rate() {
    let mut layer = WallpaperLayer::new("eDP-1".to_string());
    assert_eq!(layer.get_recommended_update_interval(), None);
    layer.framerate = Some(50);
    assert_eq!(layer.get_recommended_update_interval(), Some(20));
    layer.tickrate = Some(100);
    assert_eq!(layer.get_recommended_update_interval(), Some(10));

    let mut other = WallpaperLayer::new("HDMI-A-1".to_string());
    other.framerate = Some(25);
    let set = Wallpapers(vec![layer, other]);
    // The loop rests for the longest interval any display asks for.
    assert_eq!(set.get_recommended_update_interval(), Some(40));
}

#[test]
fn pacing_presets_cover_the_three_rates() {
    assert_eq!(OutputConfig::high().pace_micros, 16666);
    assert_eq!(OutputConfig::medium().pace_micros, 33333);
    assert_eq!(OutputConfig::low().pace_micros, 66666);
}
