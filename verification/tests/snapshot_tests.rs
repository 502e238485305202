use buzz_desktop::managed_agents::{AgentSnapshotMemoryEntry, ManagedAgentRecord, MemoryLevel};
use buzz_desktop::snapshot::{
    agent_not_found_message, check_png_memory, collect_memory_entries, encode_failure_message,
    find_definition,
    find_keyed_instance, invalid_format_message, invalid_memory_level_message,
    mismatched_memory_source_message, parse_export_format, parse_export_options,
    parse_memory_level, resolve_memory_pubkey, resolve_snapshot_export_target,
    snapshot_display_name, snapshot_save_target, unknown_memory_source_message,
    unlinked_memory_source_message,
};

fn record(pubkey: &str, name: &str, slug: Option<&str>, persona: Option<&str>) -> ManagedAgentRecord {
    ManagedAgentRecord {
        pubkey: pubkey.to_string(),
        name: name.to_string(),
        slug: slug.map(str::to_string),
        display_name: None,
        avatar_url: None,
        persona_id: persona.map(str::to_string),
    }
}

fn entry(slug: &str, body: &str) -> AgentSnapshotMemoryEntry {
    AgentSnapshotMemoryEntry {
        slug: slug.to_string(),
        body: body.to_string(),
    }
}

#[test]
fn resolve_target_matches_instance_by_pubkey() {
    let instances = vec![record("aa11", "one", Some("one"), None), record("bb22", "two", None, None)];
    let (rec, is_definition) = resolve_snapshot_export_target(instances, vec![], "bb22").unwrap();
    assert_eq!(rec.name, "two");
    assert!(!is_definition);
}

#[test]
fn resolve_target_matches_instance_by_slug() {
    let instances = vec![record("aa11", "one", Some("scout"), None)];
    let definitions = vec![record("", "def", Some("scout"), None)];
    let (rec, is_definition) = resolve_snapshot_export_target(instances, definitions, "scout").unwrap();
    assert_eq!(rec.pubkey, "aa11");
    assert!(!is_definition);
}

#[test]
fn resolve_target_exact_pubkey_beats_earlier_slug() {
    let instances = vec![
        record("k1", "first", Some("x"), None),
        record("x", "second", None, None),
    ];
    let (rec, is_definition) = resolve_snapshot_export_target(instances, vec![], "x").unwrap();
    assert_eq!(rec.name, "second");
    assert!(!is_definition);
}

#[test]
fn resolve_target_takes_first_slug_match_without_pubkey_match() {
    let instances = vec![
        record("k1", "first", Some("x"), None),
        record("k2", "second", Some("x"), None),
    ];
    let (rec, _) = resolve_snapshot_export_target(instances, vec![], "x").unwrap();
    assert_eq!(rec.name, "first");
}

#[test]
fn resolve_target_falls_back_to_definition_by_slug() {
    let instances = vec![record("aa11", "one", Some("one"), None)];
    let definitions = vec![
        record("", "other", Some("other"), None),
        record("", "scout", Some("scout"), None),
    ];
    let (rec, is_definition) = resolve_snapshot_export_target(instances, definitions, "scout").unwrap();
    assert_eq!(rec.name, "scout");
    assert!(is_definition);
}

#[test]
fn resolve_target_definitions_not_matched_by_pubkey() {
    let definitions = vec![record("dd44", "def", None, None)];
    let err = resolve_snapshot_export_target(vec![], definitions, "dd44").unwrap_err();
    assert_eq!(err, "agent \"dd44\" not found");
}

#[test]
fn resolve_target_not_found_quotes_id() {
    let err = resolve_snapshot_export_target(vec![], vec![], "a\"b").unwrap_err();
    assert_eq!(err, "agent \"a\\\"b\" not found");
}

#[test]
fn find_helpers_report_first_index() {
    let rs = vec![
        record("k1", "a", Some("s"), None),
        record("k2", "b", Some("s"), None),
    ];
    assert_eq!(find_keyed_instance(&rs, "s"), Some(0));
    let mixed = vec![record("k1", "a", Some("k2"), None), record("k2", "b", None, None)];
    assert_eq!(find_keyed_instance(&mixed, "k2"), Some(1));
    assert_eq!(find_keyed_instance(&rs, "k2"), Some(1));
    assert_eq!(find_keyed_instance(&rs, "zz"), None);
    assert_eq!(find_definition(&rs, "s"), Some(0));
    assert_eq!(find_definition(&rs, "k1"), None);
}

#[test]
fn memory_level_parsing() {
    assert_eq!(parse_memory_level("none"), Ok(MemoryLevel::NoMemory));
    assert_eq!(parse_memory_level(""), Ok(MemoryLevel::NoMemory));
    assert_eq!(parse_memory_level("core"), Ok(MemoryLevel::Core));
    assert_eq!(parse_memory_level("everything"), Ok(MemoryLevel::Everything));
    assert_eq!(
        parse_memory_level("all"),
        Err("Invalid memory_level: \"all\" (expected 'none', 'core', or 'everything')".to_string())
    );
    assert!(parse_memory_level("Core").is_err());
}

#[test]
fn export_format_parsing() {
    assert_eq!(parse_export_format("json"), Ok(false));
    assert_eq!(parse_export_format(""), Ok(false));
    assert_eq!(parse_export_format("png"), Ok(true));
    assert_eq!(
        parse_export_format("gif"),
        Err("Invalid format: \"gif\" (expected 'json' or 'png')".to_string())
    );
}

#[test]
fn png_export_rejects_memory() {
    let msg = "Cannot export memory to .agent.png — use JSON format for memory-bearing snapshots.";
    assert_eq!(check_png_memory(true, MemoryLevel::Core), Err(msg.to_string()));
    assert_eq!(check_png_memory(true, MemoryLevel::Everything), Err(msg.to_string()));
    assert_eq!(check_png_memory(true, MemoryLevel::NoMemory), Ok(()));
    assert_eq!(check_png_memory(false, MemoryLevel::Everything), Ok(()));
    assert_eq!(parse_export_options("core", "png").err(), Some(msg.to_string()));
}

#[test]
fn export_options_checks_level_before_format() {
    let err = parse_export_options("bogus", "gif").err().unwrap();
    assert!(err.starts_with("Invalid memory_level"));
    let err = parse_export_options("core", "gif").err().unwrap();
    assert!(err.starts_with("Invalid format"));
    let ok = parse_export_options("", "").ok().unwrap();
    assert_eq!(ok.memory_level, MemoryLevel::NoMemory);
    assert!(!ok.is_png);
    let ok = parse_export_options("none", "png").ok().unwrap();
    assert!(ok.is_png);
}

#[test]
fn memory_pubkey_none_without_memory() {
    let rec = record("aa11", "one", None, None);
    let r = resolve_memory_pubkey(MemoryLevel::NoMemory, Some("zz"), &rec, false, &vec![], "aa11");
    assert_eq!(r, Ok(None));
}

#[test]
fn memory_pubkey_required_when_blank() {
    let rec = record("aa11", "one", None, None);
    let msg = "memory_source_pubkey is required when memory_level is not 'none'. Pass the pubkey of a linked agent instance.";
    assert_eq!(
        resolve_memory_pubkey(MemoryLevel::Core, None, &rec, false, &vec![], "aa11"),
        Err(msg.to_string())
    );
    assert_eq!(
        resolve_memory_pubkey(MemoryLevel::Everything, Some("  "), &rec, false, &vec![], "aa11"),
        Err(msg.to_string())
    );
}

#[test]
fn memory_pubkey_must_be_the_instance_itself() {
    let rec = record("aa11", "one", None, None);
    assert_eq!(
        resolve_memory_pubkey(MemoryLevel::Core, Some(" aa11 "), &rec, false, &vec![], "one"),
        Ok(Some("aa11".to_string()))
    );
    assert_eq!(
        resolve_memory_pubkey(MemoryLevel::Core, Some("bb22"), &rec, false, &vec![], "one"),
        Err("memory_source_pubkey \"bb22\" does not match agent \"one\"".to_string())
    );
}

#[test]
fn memory_pubkey_for_definition_must_be_linked_instance() {
    let def = record("", "scout", Some("scout"), None);
    let instances = vec![
        record("aa11", "a", None, Some("scout")),
        record("bb22", "b", None, Some("other")),
    ];
    assert_eq!(
        resolve_memory_pubkey(MemoryLevel::Everything, Some("aa11"), &def, true, &instances, "scout"),
        Ok(Some("aa11".to_string()))
    );
    assert_eq!(
        resolve_memory_pubkey(MemoryLevel::Everything, Some("bb22"), &def, true, &instances, "scout"),
        Err("memory_source_pubkey \"bb22\" is not linked to definition \"scout\"".to_string())
    );
    assert_eq!(
        resolve_memory_pubkey(MemoryLevel::Core, Some("cc33"), &def, true, &instances, "scout"),
        Err("memory_source_pubkey \"cc33\" is not a known agent".to_string())
    );
}

#[test]
fn memory_pubkey_for_definition_without_slug_needs_empty_persona() {
    let def = record("", "nameless", None, None);
    let instances = vec![record("aa11", "a", None, Some(""))];
    assert_eq!(
        resolve_memory_pubkey(MemoryLevel::Core, Some("aa11"), &def, true, &instances, "nameless"),
        Ok(Some("aa11".to_string()))
    );
}

#[test]
fn memory_entries_by_level() {
    let none = collect_memory_entries(MemoryLevel::NoMemory, Some(entry("core", "c")), vec![entry("m", "1")]);
    assert!(none.is_empty());
    let core = collect_memory_entries(MemoryLevel::Core, Some(entry("core", "c")), vec![entry("m", "1")]);
    assert_eq!(core.len(), 1);
    assert_eq!(core[0].slug, "core");
    let all = collect_memory_entries(
        MemoryLevel::Everything,
        Some(entry("core", "c")),
        vec![entry("m1", "1"), entry("m2", "2")],
    );
    let slugs: Vec<&str> = all.iter().map(|e| e.slug.as_str()).collect();
    assert_eq!(slugs, vec!["core", "m1", "m2"]);
    let no_core = collect_memory_entries(MemoryLevel::Everything, None, vec![entry("m1", "1")]);
    assert_eq!(no_core.len(), 1);
    assert_eq!(no_core[0].body, "1");
}

#[test]
fn display_name_prefers_display_name() {
    let mut rec = record("aa11", "scout-bot", None, None);
    assert_eq!(snapshot_display_name(&rec), "scout-bot");
    rec.display_name = Some("Scout".to_string());
    assert_eq!(snapshot_display_name(&rec), "Scout");
}

#[test]
fn save_targets() {
    let png = snapshot_save_target("scout", true);
    assert_eq!(png.filename, "scout.agent.png");
    assert_eq!(png.filter_name, "PNG image");
    assert_eq!(png.extension, "png");
    let json = snapshot_save_target("scout", false);
    assert_eq!(json.filename, "scout.agent.json");
    assert_eq!(json.filter_name, "Agent snapshot");
    assert_eq!(json.extension, "json");
}

#[test]
fn message_builders() {
    assert_eq!(agent_not_found_message("\"x\""), "agent \"x\" not found");
    assert_eq!(invalid_memory_level_message("q"), "Invalid memory_level: q (expected 'none', 'core', or 'everything')");
    assert_eq!(invalid_format_message("q"), "Invalid format: q (expected 'json' or 'png')");
    assert_eq!(unknown_memory_source_message("q"), "memory_source_pubkey q is not a known agent");
    assert_eq!(unlinked_memory_source_message("q", "i"), "memory_source_pubkey q is not linked to definition i");
    assert_eq!(mismatched_memory_source_message("q", "i"), "memory_source_pubkey q does not match agent i");
}

#[test]
fn encode_failure_messages() {
    assert_eq!(
        encode_failure_message(true, "bad image"),
        "Failed to encode .agent.png: bad image"
    );
    assert_eq!(
        encode_failure_message(false, "bad json"),
        "Failed to encode .agent.json: bad json"
    );
}
