//! Managed agent records and the per-command default avatars.
use vstd::prelude::*;

use crate::text::{opt_string_view, owned, str_eq};

verus! {

/// What the snapshot export reads of a stored agent: keyed instances carry
/// a `pubkey`; keyless definitions are found by `slug`; an instance created
/// from a definition names it in `persona_id`.
#[derive(Debug)]
pub struct ManagedAgentRecord {
    pub pubkey: String,
    pub name: String,
    pub slug: Option<String>,
    pub display_name: Option<String>,
    pub avatar_url: Option<String>,
    pub persona_id: Option<String>,
}

/// How much agent memory a snapshot carries.
#[derive(Clone, Copy, Debug, PartialEq, Eq, Structural)]
pub enum MemoryLevel {
    /// No memory at all (the level `"none"`).
    NoMemory,
    /// Only the core memory entry.
    Core,
    /// The core entry and every other memory.
    Everything,
}

/// One memory entry written into a snapshot.
#[derive(Debug)]
pub struct AgentSnapshotMemoryEntry {
    pub slug: String,
    pub body: String,
}

/// The bundled avatar of each agent command that the app knows.
pub open spec fn command_avatar_url(command: Seq<char>) -> Option<Seq<char>> {
    if command == "goose"@ {
        Some("/agent-icons/goose.svg"@)
    } else if command == "codex"@ {
        Some("/agent-icons/codex.svg"@)
    } else if command == "gemini"@ {
        Some("/agent-icons/gemini.svg"@)
    } else {
        None
    }
}

/// The default avatar of an agent started with `command`, if the command is
/// one the app knows.
pub fn managed_agent_avatar_url(command: &str) -> (r: Option<String>)
    ensures
        opt_string_view(r) == command_avatar_url(command@),
{
    if str_eq(command, "goose") {
        Some(owned("/agent-icons/goose.svg"))
    } else if str_eq(command, "codex") {
        Some(owned("/agent-icons/codex.svg"))
    } else if str_eq(command, "gemini") {
        Some(owned("/agent-icons/gemini.svg"))
    } else {
        None
    }
}

} // verus!
