//! Policy math and small pure helpers.

use mimic_core::policy::{ai_overflow, ceil_ratio, clamp_ratio, human_eliminated_limit,
    min_human_survive, vote_threshold};
use mimic_core::spawn::{spawn_source, usage_counts_from_pairs, select_preset_fish,
    generate_room_code, SpawnSource};
use mimic_core::preset_fish::{get_preset_fish, preset_fish_count};
use mimic_core::auth_token::extract_auth_token;

#[test]
fn test_human_eliminated_limit_small_room() {
    assert_eq!(human_eliminated_limit(1, 400), 1);
    assert_eq!(human_eliminated_limit(2, 400), 1);
    assert_eq!(human_eliminated_limit(3, 400), 2);
    assert_eq!(human_eliminated_limit(5, 400), 2);
}

#[test]
fn test_min_human_survive_small_room() {
    assert_eq!(min_human_survive(1, 600), 1);
    assert_eq!(min_human_survive(2, 600), 2);
    assert_eq!(min_human_survive(3, 600), 2);
    assert_eq!(min_human_survive(5, 600), 3);
}

#[test]
fn test_ai_overflow_delta() {
    assert!(!ai_overflow(1, 1, 2));
    assert!(!ai_overflow(3, 1, 2));
    assert!(ai_overflow(4, 1, 2));
}

#[test]
fn ai_overflow_negative_delta_counts_as_zero() {
    assert!(ai_overflow(2, 1, -5));
    assert!(!ai_overflow(1, 1, -5));
}

#[test]
fn clamp_ratio_clamps_both_ends() {
    assert_eq!(clamp_ratio(-3), 0);
    assert_eq!(clamp_ratio(400), 400);
    assert_eq!(clamp_ratio(1500), 1000);
}

#[test]
fn ceil_ratio_rounds_up() {
    assert_eq!(ceil_ratio(10, 600), 6);
    assert_eq!(ceil_ratio(3, 400), 2);
    assert_eq!(ceil_ratio(0, 600), 0);
    assert_eq!(ceil_ratio(7, 1000), 7);
    assert_eq!(ceil_ratio(7, 2000), 7);
}

#[test]
fn vote_threshold_takes_the_larger() {
    // online 10, ratio 0.6, floor 2: max(2, ceil(6)) = 6.
    assert_eq!(vote_threshold(10, 600, 2), 6);
    // A tiny room still needs the floor.
    assert_eq!(vote_threshold(1, 600, 2), 2);
}

#[test]
fn spawn_source_prefers_presets_then_queue() {
    assert_eq!(spawn_source(1, true), SpawnSource::Preset);
    assert_eq!(spawn_source(5, true), SpawnSource::Preset);
    assert_eq!(spawn_source(6, true), SpawnSource::Queue);
    assert_eq!(spawn_source(6, false), SpawnSource::Preset);
}

#[test]
fn usage_counts_fill_gaps_with_zero() {
    let pairs: Vec<(u8, u64)> = vec![(2, 7), (0, 1)];
    let table = usage_counts_from_pairs(&pairs, 4);
    assert_eq!(table, vec![1, 0, 7, 0]);
}

#[test]
fn select_preset_fish_picks_the_unique_minimum() {
    let usage: Vec<u64> = vec![3, 1, 2];
    assert_eq!(select_preset_fish(&usage), 1);
}

#[test]
fn select_preset_fish_picks_some_minimum() {
    let usage: Vec<u64> = vec![2, 1, 1, 5];
    let picked = select_preset_fish(&usage);
    assert!(picked == 1 || picked == 2);
}

#[test]
fn room_codes_use_the_alphabet() {
    let code = generate_room_code();
    assert_eq!(code.chars().count(), 6);
    for c in code.chars() {
        assert!("ABCDEFGHJKLMNPQRSTUVWXYZ23456789".contains(c));
    }
}

#[test]
fn test_preset_fish_pool_size() {
    assert_eq!(preset_fish_count(), 9);
}

#[test]
fn test_get_preset_fish() {
    let fish = get_preset_fish(0);
    assert!(fish.is_some());
    assert_eq!(fish.unwrap().name, "稀疏红鱼");
}

#[test]
fn preset_fish_out_of_range_is_absent() {
    assert!(get_preset_fish(9).is_none());
}

#[test]
fn extract_auth_token_prefers_token_field() {
    assert_eq!(
        extract_auth_token(Some("token-123"), Some("Bearer ignored")),
        Some("token-123".to_string())
    );
}

#[test]
fn extract_auth_token_supports_bearer_authorization() {
    assert_eq!(
        extract_auth_token(None, Some("Bearer token-xyz")),
        Some("token-xyz".to_string())
    );
}

#[test]
fn extract_auth_token_returns_none_when_missing() {
    assert_eq!(extract_auth_token(None, None), None);
}

#[test]
fn extract_auth_token_trims_and_ignores_bearer_case() {
    assert_eq!(
        extract_auth_token(Some("   "), Some("  bEaReR   abc  ")),
        Some("abc".to_string())
    );
    assert_eq!(extract_auth_token(None, Some("plain-token")), Some("plain-token".to_string()));
    // Trimming runs first, so a bare "Bearer" with trailing blanks is a
    // six-character token of its own, not an empty bearer.
    assert_eq!(extract_auth_token(None, Some("Bearer    ")), Some("Bearer".to_string()));
}
