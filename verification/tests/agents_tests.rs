use buzz_desktop::agents::{
    normalize_relay_mesh, profile_needs_sync, resolve_created_avatar_url, resolve_legacy_avatar,
    BackendKind, RelayMeshConfig,
};
use buzz_desktop::managed_agents::managed_agent_avatar_url;
use buzz_desktop::relay::profile;

#[test]
fn normalize_relay_mesh_rejects_empty_model_ref() {
    let config = RelayMeshConfig {
        model_ref: "  \t ".to_string(),
    };

    assert_eq!(
        normalize_relay_mesh(Some(&config), &BackendKind::Local).unwrap_err(),
        "Buzz shared compute model is required"
    );
}

#[test]
fn normalize_relay_mesh_rejects_non_local_backend() {
    let config = RelayMeshConfig {
        model_ref: "Qwen3".to_string(),
    };
    let backend = BackendKind::Provider {
        id: "blox".to_string(),
        config: serde_json::Value::Object(serde_json::Map::new()),
    };

    assert_eq!(
        normalize_relay_mesh(Some(&config), &backend).unwrap_err(),
        "Buzz shared compute agents must use the local backend"
    );
}

#[test]
fn normalize_relay_mesh_trims_and_preserves_valid_config() {
    let config = RelayMeshConfig {
        model_ref: "  Qwen3  ".to_string(),
    };

    assert_eq!(
        normalize_relay_mesh(Some(&config), &BackendKind::Local).unwrap(),
        Some(RelayMeshConfig {
            model_ref: "Qwen3".to_string(),
        })
    );
}

#[test]
fn created_avatar_prefers_explicit_input() {
    let resolved = resolve_created_avatar_url(
        Some(" https://x/input.png "),
        Some("https://x/persona.png".to_string()),
        "goose",
    );

    assert_eq!(resolved.as_deref(), Some("https://x/input.png"));
}

#[test]
fn created_avatar_uses_persona_before_command_fallback() {
    let resolved =
        resolve_created_avatar_url(None, Some(" https://x/persona.png ".to_string()), "goose");

    assert_eq!(resolved.as_deref(), Some("https://x/persona.png"));
}

#[test]
fn created_avatar_uses_command_fallback_without_input_or_persona() {
    let resolved = resolve_created_avatar_url(None, None, "goose");

    assert_eq!(resolved, managed_agent_avatar_url("goose"));
}

#[test]
fn profile_needs_sync_when_missing() {
    assert!(profile_needs_sync(None, "Duncan", Some("https://x/a.png")));
}

#[test]
fn profile_needs_sync_when_missing_even_without_expected_avatar() {
    assert!(profile_needs_sync(None, "Duncan", None));
}

#[test]
fn profile_needs_sync_when_name_diverges() {
    let existing = profile(Some("Stilgar"), Some("https://x/a.png"));
    assert!(profile_needs_sync(
        Some(&existing),
        "Duncan",
        Some("https://x/a.png")
    ));
}

#[test]
fn profile_needs_sync_when_picture_diverges() {
    let existing = profile(Some("Duncan"), Some("https://x/old.png"));
    assert!(profile_needs_sync(
        Some(&existing),
        "Duncan",
        Some("https://x/new.png")
    ));
}

#[test]
fn profile_in_sync_when_name_and_picture_match() {
    let existing = profile(Some("Duncan"), Some("https://x/a.png"));
    assert!(!profile_needs_sync(
        Some(&existing),
        "Duncan",
        Some("https://x/a.png")
    ));
}

#[test]
fn profile_in_sync_when_both_avatars_absent() {
    let existing = profile(Some("Duncan"), None);
    assert!(!profile_needs_sync(Some(&existing), "Duncan", None));
}

#[test]
fn profile_needs_sync_when_existing_name_is_none() {
    let existing = profile(None, Some("https://x/a.png"));
    assert!(profile_needs_sync(
        Some(&existing),
        "Duncan",
        Some("https://x/a.png"),
    ));
}

#[test]
fn profile_needs_sync_when_expected_avatar_absent_but_published() {
    let existing = profile(Some("Duncan"), Some("https://x/a.png"));
    assert!(profile_needs_sync(Some(&existing), "Duncan", None));
}

#[test]
fn legacy_avatar_prefers_persona_over_corrupted_relay_picture() {
    let resolved = resolve_legacy_avatar(
        Some("https://x/persona.png".to_string()),
        Some("https://x/default-icon.png".to_string()),
        "goose",
    );

    assert_eq!(resolved, "https://x/persona.png");
}

#[test]
fn legacy_avatar_falls_back_to_relay_picture_without_persona() {
    let resolved = resolve_legacy_avatar(None, Some("https://x/relay.png".to_string()), "goose");

    assert_eq!(resolved, "https://x/relay.png");
}

#[test]
fn legacy_avatar_falls_back_to_command_icon_when_no_persona_or_relay() {
    let resolved = resolve_legacy_avatar(None, None, "goose");

    assert_eq!(resolved, managed_agent_avatar_url("goose").unwrap());
}

#[test]
fn legacy_avatar_empty_when_nothing_resolves() {
    let resolved = resolve_legacy_avatar(None, None, "totally-unknown-command");

    assert!(resolved.is_empty());
}

// ── Further cases ────────────────────────────────────────────────────────────

#[test]
fn normalize_relay_mesh_without_setting_is_none_on_any_backend() {
    let backend = BackendKind::Provider {
        id: "blox".to_string(),
        config: serde_json::Value::Null,
    };
    assert_eq!(normalize_relay_mesh(None, &backend), Ok(None));
    assert_eq!(normalize_relay_mesh(None, &BackendKind::Local), Ok(None));
}

#[test]
fn normalize_relay_mesh_checks_model_before_backend() {
    let config = RelayMeshConfig {
        model_ref: " \n ".to_string(),
    };
    let backend = BackendKind::Provider {
        id: "blox".to_string(),
        config: serde_json::Value::Null,
    };
    assert_eq!(
        normalize_relay_mesh(Some(&config), &backend).unwrap_err(),
        "Buzz shared compute model is required"
    );
}

#[test]
fn normalize_relay_mesh_trims_unicode_white_space() {
    let config = RelayMeshConfig {
        model_ref: "\u{3000}\u{a0}Qwen3 8B\u{2029}".to_string(),
    };
    assert_eq!(
        normalize_relay_mesh(Some(&config), &BackendKind::Local),
        Ok(Some(RelayMeshConfig {
            model_ref: "Qwen3 8B".to_string()
        }))
    );
}

#[test]
fn normalize_relay_mesh_is_idempotent_on_its_output() {
    let config = RelayMeshConfig {
        model_ref: "\t llama-3 \n".to_string(),
    };
    let once = normalize_relay_mesh(Some(&config), &BackendKind::Local)
        .unwrap()
        .unwrap();
    let twice = normalize_relay_mesh(Some(&once), &BackendKind::Local);
    assert_eq!(twice, Ok(Some(once)));
}

#[test]
fn created_avatar_skips_blank_input_and_persona() {
    let resolved = resolve_created_avatar_url(Some("   "), Some("\t".to_string()), "goose");
    assert_eq!(resolved, managed_agent_avatar_url("goose"));
}

#[test]
fn created_avatar_none_for_unknown_command() {
    assert_eq!(resolve_created_avatar_url(None, None, "mystery"), None);
}

#[test]
fn created_avatar_is_stable_when_fed_back() {
    let first = resolve_created_avatar_url(None, Some("  https://x/p.png\n".to_string()), "goose");
    let again = resolve_created_avatar_url(first.as_deref(), None, "mystery");
    assert_eq!(first.as_deref(), Some("https://x/p.png"));
    assert_eq!(again, first);
}

#[test]
fn command_avatar_known_and_unknown() {
    assert!(managed_agent_avatar_url("goose").is_some());
    assert_eq!(managed_agent_avatar_url("Goose"), None);
    assert_eq!(managed_agent_avatar_url(""), None);
}

#[test]
fn profile_of_expected_values_is_in_sync() {
    let existing = profile(Some("Chani"), Some("https://x/c.png"));
    assert!(!profile_needs_sync(Some(&existing), "Chani", Some("https://x/c.png")));
    let bare = profile(Some("Chani"), None);
    assert!(!profile_needs_sync(Some(&bare), "Chani", None));
}

#[test]
fn profile_builds_given_fields() {
    let p = profile(Some("Duncan"), None);
    assert_eq!(p.display_name.as_deref(), Some("Duncan"));
    assert_eq!(p.picture, None);
}

#[test]
fn legacy_avatar_keeps_persona_even_when_empty() {
    let resolved = resolve_legacy_avatar(Some(String::new()), Some("https://x/r.png".to_string()), "goose");
    assert_eq!(resolved, "");
}
