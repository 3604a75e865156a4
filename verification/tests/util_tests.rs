//! Tests of the shared helpers: string search, suffix folding, and the
//! particle pool's capacity enforcement.

use wlrs::renderer::models::particle::ParticleCommand;
use wlrs::utils::{ends_with_ignore_ascii_case, str_contains, str_eq};

#[test]
fn string_search_finds_substrings() {
    assert!(str_contains("rgba(1,2,3)", "rgba"));
    assert!(str_contains("background", "ground"));
    assert!(str_contains("abc", ""));
    assert!(!str_contains("abc", "abcd"));
    assert!(!str_contains("paper", "rgba"));
    assert!(str_eq("same", "same"));
    assert!(!str_eq("same", "other"));
}

#[test]
fn suffix_folding_matches_extensions() {
    assert!(ends_with_ignore_ascii_case("art.webp", ".webp"));
    assert!(ends_with_ignore_ascii_case("ART.WEBP", ".webp"));
    assert!(ends_with_ignore_ascii_case("loop.Gif", ".gif"));
    assert!(!ends_with_ignore_ascii_case("art.png", ".webp"));
    assert!(!ends_with_ignore_ascii_case(".gif", ".webp"));
}

#[test]
fn particle_commands_shape_is_stable() {
    // The command kinds the host accepts; the capacity-enforcement itself
    // needs a GPU-backed pool and is covered by its contracts.
    let spawn = ParticleCommand::Spawn { payload: vec![1, 2, 3] };
    let update = ParticleCommand::Update { index: 0, alive: true, payload: vec![] };
    let kill = ParticleCommand::Kill { index: 7 };
    assert!(matches!(spawn, ParticleCommand::Spawn { .. }));
    assert!(matches!(update, ParticleCommand::Update { index: 0, .. }));
    assert!(matches!(kill, ParticleCommand::Kill { index: 7 }));
}
