# buzz_desktop

Verified decision logic behind the desktop app's agent commands, written in
Verus.

- `src/text.rs` — white-space trimming (Unicode `White_Space`), string
  comparison, quoting for messages, with the trimming laws.
- `src/managed_agents.rs` — stored agent records, memory levels, the default
  avatar of each known agent command.
- `src/relay.rs` — the published profile of an agent.
- `src/agents.rs` — shared-compute (relay mesh) settings, avatar resolution for
  new and legacy agents, whether a published profile must be rewritten.
- `src/snapshot.rs` — the rules of the snapshot export: which record is
  exported, which options are accepted, whose memory may be included, what the
  snapshot holds and how its file is named.
- `src/export.rs` — the export as a state machine: the app performs each
  action (load records, read memory, encode, save the file) and reports the
  outcome. The store lock is held from the first load until the link check is
  done (the first action that is not a load).

The app's own I/O (the Tauri command, the store, the relay, the save dialog)
drives `begin_export` / `export_step` and is not part of this crate.

The agent-creation helpers (`normalize_relay_mesh`, `resolve_created_avatar_url`,
`resolve_legacy_avatar`, `profile_needs_sync`, `managed_agent_avatar_url`) are
specified from their test cases. Where those cases leave behaviour open — a
blank persona avatar, the order of the two relay-mesh checks, the table of
known agent commands and their icon paths — the contracts fix one choice, and
that choice is an assumption, not a documented requirement.
