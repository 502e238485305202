//! The decisions of the agent snapshot export: which stored agent a snapshot
//! is taken from, which options are accepted, which agent's memory may go
//! into it, what the snapshot holds and where it is saved.
use vstd::prelude::*;

use crate::managed_agents::{AgentSnapshotMemoryEntry, ManagedAgentRecord, MemoryLevel};
use crate::text::{
    concat3, concat4, debug_quote, debug_quoted, opt_str_view, opt_string_is, opt_string_view,
    owned, str_eq, trim_str, trimmed,
};

verus! {

// ── Finding the agent ──────────────────────────────────────────────────────

/// The record's slug is exactly `id`.
pub open spec fn slug_is(r: ManagedAgentRecord, id: Seq<char>) -> bool {
    opt_string_view(r.slug) == Some(id)
}

/// A keyed instance is found by its pubkey or by its slug.
pub open spec fn instance_matches(r: ManagedAgentRecord, id: Seq<char>) -> bool {
    r.pubkey@ == id || slug_is(r, id)
}

/// No keyed instance in `s` is named by `id`, by pubkey or slug.
pub open spec fn no_instance_matches(s: Seq<ManagedAgentRecord>, id: Seq<char>) -> bool {
    forall|j: int| 0 <= j < s.len() ==> !instance_matches(#[trigger] s[j], id)
}

/// `i` is the first record in `s` whose pubkey is `key`.
pub open spec fn is_first_with_pubkey(s: Seq<ManagedAgentRecord>, key: Seq<char>, i: int) -> bool {
    &&& 0 <= i < s.len()
    &&& s[i].pubkey@ == key
    &&& forall|j: int| 0 <= j < i ==> (#[trigger] s[j]).pubkey@ != key
}

/// No record in `s` has the pubkey `key`.
pub open spec fn no_pubkey_matches(s: Seq<ManagedAgentRecord>, key: Seq<char>) -> bool {
    forall|j: int| 0 <= j < s.len() ==> (#[trigger] s[j]).pubkey@ != key
}

/// `i` is the first record in `s` whose slug is `id`.
pub open spec fn is_first_slug_match(s: Seq<ManagedAgentRecord>, id: Seq<char>, i: int) -> bool {
    &&& 0 <= i < s.len()
    &&& slug_is(s[i], id)
    &&& forall|j: int| 0 <= j < i ==> !slug_is(#[trigger] s[j], id)
}

/// No record in `s` has the slug `id`.
pub open spec fn no_slug_matches(s: Seq<ManagedAgentRecord>, id: Seq<char>) -> bool {
    forall|j: int| 0 <= j < s.len() ==> !slug_is(#[trigger] s[j], id)
}

/// `i` is the keyed instance that `id` names: the first whose pubkey is
/// exactly `id`; only when no pubkey is, the first whose slug is `id`.
pub open spec fn is_named_instance(s: Seq<ManagedAgentRecord>, id: Seq<char>, i: int) -> bool {
    ||| is_first_with_pubkey(s, id, i)
    ||| no_pubkey_matches(s, id) && is_first_slug_match(s, id, i)
}

/// There is at most one first record with a given pubkey.
pub proof fn lemma_first_with_pubkey_unique(s: Seq<ManagedAgentRecord>, key: Seq<char>, i: int, k: int)
    requires
        is_first_with_pubkey(s, key, i),
        is_first_with_pubkey(s, key, k),
    ensures
        i == k,
{
    if i < k {
        assert(s[i].pubkey@ == key);
    } else if k < i {
        assert(s[k].pubkey@ == key);
    }
}

/// There is at most one first record with a given slug.
pub proof fn lemma_first_slug_match_unique(s: Seq<ManagedAgentRecord>, id: Seq<char>, i: int, k: int)
    requires
        is_first_slug_match(s, id, i),
        is_first_slug_match(s, id, k),
    ensures
        i == k,
{
    if i < k {
        assert(slug_is(s[i], id));
    } else if k < i {
        assert(slug_is(s[k], id));
    }
}

/// An id names at most one keyed instance.
pub proof fn lemma_named_instance_unique(s: Seq<ManagedAgentRecord>, id: Seq<char>, i: int, k: int)
    requires
        is_named_instance(s, id, i),
        is_named_instance(s, id, k),
    ensures
        i == k,
{
    if is_first_with_pubkey(s, id, i) && is_first_with_pubkey(s, id, k) {
        lemma_first_with_pubkey_unique(s, id, i, k);
    } else if is_first_with_pubkey(s, id, i) {
        assert(s[i].pubkey@ == id);
    } else if is_first_with_pubkey(s, id, k) {
        assert(s[k].pubkey@ == id);
    } else {
        lemma_first_slug_match_unique(s, id, i, k);
    }
}

/// A record with pubkey `key` implies a first one.
pub proof fn lemma_first_with_pubkey_exists(s: Seq<ManagedAgentRecord>, key: Seq<char>, k: int)
    requires
        0 <= k < s.len(),
        s[k].pubkey@ == key,
    ensures
        exists|i: int| is_first_with_pubkey(s, key, i),
    decreases k,
{
    if exists|j: int| 0 <= j < k && (#[trigger] s[j]).pubkey@ == key {
        let j = choose|j: int| 0 <= j < k && (#[trigger] s[j]).pubkey@ == key;
        lemma_first_with_pubkey_exists(s, key, j);
    } else {
        assert(is_first_with_pubkey(s, key, k));
    }
}

/// A record with slug `id` implies a first one.
pub proof fn lemma_first_slug_match_exists(s: Seq<ManagedAgentRecord>, id: Seq<char>, k: int)
    requires
        0 <= k < s.len(),
        slug_is(s[k], id),
    ensures
        exists|i: int| is_first_slug_match(s, id, i),
    decreases k,
{
    if exists|j: int| 0 <= j < k && slug_is(#[trigger] s[j], id) {
        let j = choose|j: int| 0 <= j < k && slug_is(#[trigger] s[j], id);
        lemma_first_slug_match_exists(s, id, j);
    } else {
        assert(is_first_slug_match(s, id, k));
    }
}

/// A keyed instance matching `id` by pubkey or slug implies a named one.
pub proof fn lemma_named_instance_exists(s: Seq<ManagedAgentRecord>, id: Seq<char>, k: int)
    requires
        0 <= k < s.len(),
        instance_matches(s[k], id),
    ensures
        exists|i: int| is_named_instance(s, id, i),
{
    if exists|j: int| 0 <= j < s.len() && (#[trigger] s[j]).pubkey@ == id {
        let j = choose|j: int| 0 <= j < s.len() && (#[trigger] s[j]).pubkey@ == id;
        lemma_first_with_pubkey_exists(s, id, j);
        let i = choose|i: int| is_first_with_pubkey(s, id, i);
        assert(is_named_instance(s, id, i));
    } else {
        assert(slug_is(s[k], id));
        lemma_first_slug_match_exists(s, id, k);
        let i = choose|i: int| is_first_slug_match(s, id, i);
        assert(is_named_instance(s, id, i));
    }
}

/// Law: an exact pubkey match wins. When some keyed instance's pubkey is
/// `id`, the instance that `id` names has that pubkey, whatever slugs come
/// before it.
pub proof fn law_exact_pubkey_wins(s: Seq<ManagedAgentRecord>, id: Seq<char>, k: int, i: int)
    requires
        0 <= k < s.len(),
        s[k].pubkey@ == id,
        is_named_instance(s, id, i),
    ensures
        s[i].pubkey@ == id,
        i <= k,
{
}

/// The index of the first record whose pubkey is `key`.
fn find_by_pubkey(records: &Vec<ManagedAgentRecord>, key: &str) -> (r: Option<usize>)
    ensures
        match r {
            Some(i) => is_first_with_pubkey(records@, key@, i as int),
            None => no_pubkey_matches(records@, key@),
        },
{
    let mut i: usize = 0;
    while i < records.len()
        invariant
            i <= records@.len(),
            forall|j: int| 0 <= j < i ==> (#[trigger] records@[j]).pubkey@ != key@,
        decreases records.len() - i,
    {
        if str_eq(records[i].pubkey.as_str(), key) {
            return Some(i);
        }
        i = i + 1;
    }
    None
}

/// The index of the first record whose slug is `id`.
fn find_by_slug(records: &Vec<ManagedAgentRecord>, id: &str) -> (r: Option<usize>)
    ensures
        match r {
            Some(i) => is_first_slug_match(records@, id@, i as int),
            None => no_slug_matches(records@, id@),
        },
{
    let mut i: usize = 0;
    while i < records.len()
        invariant
            i <= records@.len(),
            forall|j: int| 0 <= j < i ==> !slug_is(#[trigger] records@[j], id@),
        decreases records.len() - i,
    {
        if opt_string_is(&records[i].slug, id) {
            return Some(i);
        }
        i = i + 1;
    }
    None
}

/// The index of the keyed instance that `id` names: an exact pubkey match
/// anywhere wins; only when there is none, the first slug match.
pub fn find_keyed_instance(instances: &Vec<ManagedAgentRecord>, id: &str) -> (r: Option<usize>)
    ensures
        match r {
            Some(i) => is_named_instance(instances@, id@, i as int),
            None => no_instance_matches(instances@, id@),
        },
{
    match find_by_pubkey(instances, id) {
        Some(i) => Some(i),
        None => find_by_slug(instances, id),
    }
}

/// The index of the first keyless definition whose slug is `id`.
pub fn find_definition(definitions: &Vec<ManagedAgentRecord>, id: &str) -> (r: Option<usize>)
    ensures
        match r {
            Some(i) => is_first_slug_match(definitions@, id@, i as int),
            None => no_slug_matches(definitions@, id@),
        },
{
    find_by_slug(definitions, id)
}

/// Takes out of the loaded instances the one that `id` names.
pub fn take_keyed_instance(instances: Vec<ManagedAgentRecord>, id: &str) -> (r: Option<
    ManagedAgentRecord,
>)
    ensures
        match r {
            Some(rec) => exists|i: int| is_named_instance(instances@, id@, i) && rec == instances@[i],
            None => no_instance_matches(instances@, id@),
        },
{
    let ghost all = instances@;
    let mut instances = instances;
    match find_keyed_instance(&instances, id) {
        Some(i) => {
            let rec = instances.remove(i);
            assert(is_named_instance(all, id@, i as int) && rec == all[i as int]);
            Some(rec)
        },
        None => None,
    }
}

/// Takes out of the loaded definitions the first whose slug is `id`.
pub fn take_definition(definitions: Vec<ManagedAgentRecord>, id: &str) -> (r: Option<
    ManagedAgentRecord,
>)
    ensures
        match r {
            Some(rec) => exists|i: int| is_first_slug_match(definitions@, id@, i) && rec == definitions@[i],
            None => no_slug_matches(definitions@, id@),
        },
{
    let ghost all = definitions@;
    let mut definitions = definitions;
    match find_definition(&definitions, id) {
        Some(i) => {
            let rec = definitions.remove(i);
            assert(is_first_slug_match(all, id@, i as int) && rec == all[i as int]);
            Some(rec)
        },
        None => None,
    }
}

/// The error for an id that names no agent, given the id as `{:?}` writes it.
pub open spec fn spec_agent_not_found(quoted_id: Seq<char>) -> Seq<char> {
    "agent "@ + quoted_id + " not found"@
}

/// Builds the error for an id that names no agent from the quoted id.
pub fn agent_not_found_message(quoted_id: &str) -> (r: String)
    ensures
        r@ == spec_agent_not_found(quoted_id@),
{
    concat3("agent ", quoted_id, " not found")
}

/// Picks the record that a snapshot of `id` is taken from. Keyed instances
/// come first: an exact pubkey match, else a slug match. Keyless definitions
/// only when no instance matches, by slug. The flag is `true` exactly when
/// the record is a definition, which has no keypair and so no memory.
pub fn resolve_snapshot_export_target(
    instances: Vec<ManagedAgentRecord>,
    definitions: Vec<ManagedAgentRecord>,
    id: &str,
) -> (r: Result<(ManagedAgentRecord, bool), String>)
    ensures
        match r {
            Ok((rec, is_definition)) => if is_definition {
                &&& no_instance_matches(instances@, id@)
                &&& exists|i: int| is_first_slug_match(definitions@, id@, i) && rec == definitions@[i]
            } else {
                exists|i: int| is_named_instance(instances@, id@, i) && rec == instances@[i]
            },
            Err(e) => {
                &&& no_instance_matches(instances@, id@)
                &&& no_slug_matches(definitions@, id@)
                &&& e@ == spec_agent_not_found(debug_quoted(id@))
            },
        },
{
    match take_keyed_instance(instances, id) {
        Some(rec) => return Ok((rec, false)),
        None => {},
    }
    match take_definition(definitions, id) {
        Some(rec) => return Ok((rec, true)),
        None => {},
    }
    let quoted = debug_quote(id);
    Err(agent_not_found_message(quoted.as_str()))
}

// ── Export options ─────────────────────────────────────────────────────────

/// The memory level that the text names; the empty text means `"none"`.
pub open spec fn spec_memory_level(s: Seq<char>) -> Option<MemoryLevel> {
    if s == "none"@ || s == ""@ {
        Some(MemoryLevel::NoMemory)
    } else if s == "core"@ {
        Some(MemoryLevel::Core)
    } else if s == "everything"@ {
        Some(MemoryLevel::Everything)
    } else {
        None
    }
}

/// The error for an unknown memory level, given the level as `{:?}` writes it.
pub open spec fn spec_invalid_memory_level(quoted: Seq<char>) -> Seq<char> {
    "Invalid memory_level: "@ + quoted + " (expected 'none', 'core', or 'everything')"@
}

/// Builds the error for an unknown memory level from the quoted level.
pub fn invalid_memory_level_message(quoted: &str) -> (r: String)
    ensures
        r@ == spec_invalid_memory_level(quoted@),
{
    concat3("Invalid memory_level: ", quoted, " (expected 'none', 'core', or 'everything')")
}

/// Reads a memory level: `"none"` or empty, `"core"`, `"everything"`.
pub fn parse_memory_level(s: &str) -> (r: Result<MemoryLevel, String>)
    ensures
        match r {
            Ok(level) => spec_memory_level(s@) == Some(level),
            Err(e) => spec_memory_level(s@) is None && e@ == spec_invalid_memory_level(debug_quoted(s@)),
        },
{
    if str_eq(s, "none") || str_eq(s, "") {
        Ok(MemoryLevel::NoMemory)
    } else if str_eq(s, "core") {
        Ok(MemoryLevel::Core)
    } else if str_eq(s, "everything") {
        Ok(MemoryLevel::Everything)
    } else {
        let quoted = debug_quote(s);
        Err(invalid_memory_level_message(quoted.as_str()))
    }
}

/// Whether the format that the text names is PNG; the empty text means JSON.
pub open spec fn spec_format_is_png(s: Seq<char>) -> Option<bool> {
    if s == "json"@ || s == ""@ {
        Some(false)
    } else if s == "png"@ {
        Some(true)
    } else {
        None
    }
}

/// The error for an unknown format, given the format as `{:?}` writes it.
pub open spec fn spec_invalid_format(quoted: Seq<char>) -> Seq<char> {
    "Invalid format: "@ + quoted + " (expected 'json' or 'png')"@
}

/// Builds the error for an unknown format from the quoted format.
pub fn invalid_format_message(quoted: &str) -> (r: String)
    ensures
        r@ == spec_invalid_format(quoted@),
{
    concat3("Invalid format: ", quoted, " (expected 'json' or 'png')")
}

/// Reads an export format: `"json"` or empty gives `false`, `"png"` `true`.
pub fn parse_export_format(s: &str) -> (r: Result<bool, String>)
    ensures
        match r {
            Ok(is_png) => spec_format_is_png(s@) == Some(is_png),
            Err(e) => spec_format_is_png(s@) is None && e@ == spec_invalid_format(debug_quoted(s@)),
        },
{
    if str_eq(s, "json") || str_eq(s, "") {
        Ok(false)
    } else if str_eq(s, "png") {
        Ok(true)
    } else {
        let quoted = debug_quote(s);
        Err(invalid_format_message(quoted.as_str()))
    }
}

/// The error for a PNG export that asks for memory.
pub open spec fn png_memory_message() -> Seq<char> {
    "Cannot export memory to .agent.png — use JSON format for memory-bearing snapshots."@
}

/// A PNG snapshot cannot carry memory.
pub fn check_png_memory(is_png: bool, level: MemoryLevel) -> (r: Result<(), String>)
    ensures
        r is Err <==> (is_png && level != MemoryLevel::NoMemory),
        r matches Err(e) ==> e@ == png_memory_message(),
{
    if is_png && level != MemoryLevel::NoMemory {
        Err(owned("Cannot export memory to .agent.png — use JSON format for memory-bearing snapshots."))
    } else {
        Ok(())
    }
}

/// The accepted options of an export.
#[derive(Debug)]
pub struct ExportOptions {
    pub memory_level: MemoryLevel,
    pub is_png: bool,
}

/// Reading the options: the memory level first, then the format, then the
/// rule that a PNG carries no memory.
pub open spec fn spec_export_options(level: Seq<char>, format: Seq<char>) -> Result<
    (MemoryLevel, bool),
    Seq<char>,
> {
    match spec_memory_level(level) {
        None => Err(spec_invalid_memory_level(debug_quoted(level))),
        Some(l) => match spec_format_is_png(format) {
            None => Err(spec_invalid_format(debug_quoted(format))),
            Some(png) => if png && l != MemoryLevel::NoMemory {
                Err(png_memory_message())
            } else {
                Ok((l, png))
            },
        },
    }
}

/// Reads and checks the memory level and format of an export request.
pub fn parse_export_options(memory_level: &str, format: &str) -> (r: Result<ExportOptions, String>)
    ensures
        match r {
            Ok(o) => spec_export_options(memory_level@, format@) == Ok::<(MemoryLevel, bool), Seq<char>>((o.memory_level, o.is_png)),
            Err(e) => spec_export_options(memory_level@, format@) == Err::<(MemoryLevel, bool), Seq<char>>(e@),
        },
{
    let level = match parse_memory_level(memory_level) {
        Ok(l) => l,
        Err(e) => return Err(e),
    };
    let is_png = match parse_export_format(format) {
        Ok(p) => p,
        Err(e) => return Err(e),
    };
    match check_png_memory(is_png, level) {
        Ok(()) => Ok(ExportOptions { memory_level: level, is_png }),
        Err(e) => Err(e),
    }
}

/// Law: an export that is accepted as PNG carries no memory.
pub proof fn law_png_export_carries_no_memory(level: Seq<char>, format: Seq<char>)
    ensures
        spec_export_options(level, format) matches Ok((l, png)) ==> (png ==> l == MemoryLevel::NoMemory),
{
}

// ── Whose memory goes into the snapshot ────────────────────────────────────

/// The error for a memory-bearing export without a memory source.
pub open spec fn memory_source_required_message() -> Seq<char> {
    "memory_source_pubkey is required when memory_level is not 'none'. Pass the pubkey of a linked agent instance."@
}

/// The error for a memory source that is no known instance.
pub open spec fn spec_unknown_memory_source(quoted_pubkey: Seq<char>) -> Seq<char> {
    "memory_source_pubkey "@ + quoted_pubkey + " is not a known agent"@
}

/// The error for a memory source not created from the definition.
pub open spec fn spec_unlinked_memory_source(quoted_pubkey: Seq<char>, quoted_id: Seq<char>) -> Seq<char> {
    "memory_source_pubkey "@ + quoted_pubkey + " is not linked to definition "@ + quoted_id
}

/// The error for a memory source other than the exported instance.
pub open spec fn spec_mismatched_memory_source(quoted_pubkey: Seq<char>, quoted_id: Seq<char>) -> Seq<char> {
    "memory_source_pubkey "@ + quoted_pubkey + " does not match agent "@ + quoted_id
}

/// Builds the error for an unknown memory source from the quoted pubkey.
pub fn unknown_memory_source_message(quoted_pubkey: &str) -> (r: String)
    ensures
        r@ == spec_unknown_memory_source(quoted_pubkey@),
{
    concat3("memory_source_pubkey ", quoted_pubkey, " is not a known agent")
}

/// Builds the error for an unlinked memory source from the quoted pubkey and id.
pub fn unlinked_memory_source_message(quoted_pubkey: &str, quoted_id: &str) -> (r: String)
    ensures
        r@ == spec_unlinked_memory_source(quoted_pubkey@, quoted_id@),
{
    concat4("memory_source_pubkey ", quoted_pubkey, " is not linked to definition ", quoted_id)
}

/// Builds the error for a mismatched memory source from the quoted pubkey and id.
pub fn mismatched_memory_source_message(quoted_pubkey: &str, quoted_id: &str) -> (r: String)
    ensures
        r@ == spec_mismatched_memory_source(quoted_pubkey@, quoted_id@),
{
    concat4("memory_source_pubkey ", quoted_pubkey, " does not match agent ", quoted_id)
}

/// The characters of an optional slice, the empty text where absent.
pub open spec fn str_or_empty(o: Option<Seq<char>>) -> Seq<char> {
    match o {
        Some(s) => s,
        None => ""@,
    }
}

/// Which instance's memory goes into the snapshot. Without memory, none.
/// Otherwise the given pubkey, trimmed, must not be empty; for a definition
/// it must be the first instance with that pubkey and that instance must
/// have been created from the definition (its `persona_id` is the
/// definition's slug); for a keyed instance it must be that instance.
pub open spec fn spec_memory_pubkey(
    level: MemoryLevel,
    source: Option<Seq<char>>,
    record: ManagedAgentRecord,
    is_definition: bool,
    instances: Seq<ManagedAgentRecord>,
    id: Seq<char>,
) -> Result<Option<Seq<char>>, Seq<char>> {
    if level == MemoryLevel::NoMemory {
        Ok(None)
    } else {
        let mpk = trimmed(str_or_empty(source));
        if mpk.len() == 0 {
            Err(memory_source_required_message())
        } else if is_definition {
            let def_slug = str_or_empty(opt_string_view(record.slug));
            if exists|i: int| is_first_with_pubkey(instances, mpk, i) {
                let i = choose|i: int| is_first_with_pubkey(instances, mpk, i);
                if opt_string_view(instances[i].persona_id) == Some(def_slug) {
                    Ok(Some(mpk))
                } else {
                    Err(spec_unlinked_memory_source(debug_quoted(mpk), debug_quoted(id)))
                }
            } else {
                Err(spec_unknown_memory_source(debug_quoted(mpk)))
            }
        } else if mpk != record.pubkey@ {
            Err(spec_mismatched_memory_source(debug_quoted(mpk), debug_quoted(id)))
        } else {
            Ok(Some(mpk))
        }
    }
}

/// An optional result text, seen as characters.
pub open spec fn opt_result_view(r: Result<Option<String>, String>) -> Result<
    Option<Seq<char>>,
    Seq<char>,
> {
    match r {
        Ok(o) => Ok(opt_string_view(o)),
        Err(e) => Err(e@),
    }
}

/// Validates the memory source of an export of `record` (found for `id`)
/// and returns the pubkey whose memory is read, if any. `instances` are the
/// keyed instances; they are read only when `record` is a definition.
pub fn resolve_memory_pubkey(
    level: MemoryLevel,
    memory_source_pubkey: Option<&str>,
    record: &ManagedAgentRecord,
    is_definition: bool,
    instances: &Vec<ManagedAgentRecord>,
    id: &str,
) -> (r: Result<Option<String>, String>)
    ensures
        opt_result_view(r) == spec_memory_pubkey(
            level,
            opt_str_view(memory_source_pubkey),
            *record,
            is_definition,
            instances@,
            id@,
        ),
{
    if level == MemoryLevel::NoMemory {
        return Ok(None);
    }
    let source: &str = match memory_source_pubkey {
        Some(s) => s,
        None => "",
    };
    let mpk = trim_str(source);
    if mpk.is_empty() {
        return Err(
            owned(
                "memory_source_pubkey is required when memory_level is not 'none'. Pass the pubkey of a linked agent instance.",
            ),
        );
    }
    if is_definition {
        let def_slug: &str = match &record.slug {
            Some(s) => s.as_str(),
            None => "",
        };
        match find_by_pubkey(instances, mpk) {
            None => {
                let q = debug_quote(mpk);
                Err(unknown_memory_source_message(q.as_str()))
            },
            Some(i) => {
                proof {
                    let c = choose|k: int| is_first_with_pubkey(instances@, mpk@, k);
                    lemma_first_with_pubkey_unique(instances@, mpk@, i as int, c);
                }
                if opt_string_is(&instances[i].persona_id, def_slug) {
                    Ok(Some(owned(mpk)))
                } else {
                    let q = debug_quote(mpk);
                    let qid = debug_quote(id);
                    Err(unlinked_memory_source_message(q.as_str(), qid.as_str()))
                }
            },
        }
    } else if !str_eq(mpk, record.pubkey.as_str()) {
        let q = debug_quote(mpk);
        let qid = debug_quote(id);
        Err(mismatched_memory_source_message(q.as_str(), qid.as_str()))
    } else {
        Ok(Some(owned(mpk)))
    }
}

/// Law: memory is only ever read from the exported instance itself, or, for
/// a definition, from an instance created from that definition; and the
/// pubkey used is the given one, trimmed and not empty.
pub proof fn law_memory_source_is_paired(
    level: MemoryLevel,
    source: Option<Seq<char>>,
    record: ManagedAgentRecord,
    is_definition: bool,
    instances: Seq<ManagedAgentRecord>,
    id: Seq<char>,
)
    ensures
        spec_memory_pubkey(level, source, record, is_definition, instances, id) matches Ok(Some(m))
            ==> {
            &&& level != MemoryLevel::NoMemory
            &&& m == trimmed(str_or_empty(source))
            &&& m.len() > 0
            &&& !is_definition ==> m == record.pubkey@
            &&& is_definition ==> exists|i: int|
                0 <= i < instances.len() && (#[trigger] instances[i]).pubkey@ == m
                    && opt_string_view(instances[i].persona_id) == Some(
                    str_or_empty(opt_string_view(record.slug)),
                )
        },
        level == MemoryLevel::NoMemory ==> spec_memory_pubkey(
            level,
            source,
            record,
            is_definition,
            instances,
            id,
        ) == Ok::<Option<Seq<char>>, Seq<char>>(None),
{
}

// ── What the snapshot holds and where it goes ──────────────────────────────

/// Law: when memory is read, and from where. Without memory nothing is
/// read. With memory, a source that is blank once trimmed is refused. For a
/// keyed instance the trimmed source is accepted exactly when it is the
/// instance's own pubkey, and then that pubkey's memory is read, at every
/// memory level. For a definition the trimmed source is accepted exactly
/// when the first instance with that pubkey was made from the definition,
/// and then that memory is read.
pub proof fn law_memory_pubkey_outcomes(
    level: MemoryLevel,
    source: Option<Seq<char>>,
    record: ManagedAgentRecord,
    is_definition: bool,
    instances: Seq<ManagedAgentRecord>,
    id: Seq<char>,
)
    ensures
        ({
            let r = spec_memory_pubkey(level, source, record, is_definition, instances, id);
            let mpk = trimmed(str_or_empty(source));
            &&& level == MemoryLevel::NoMemory ==> r == Ok::<Option<Seq<char>>, Seq<char>>(None)
            &&& level != MemoryLevel::NoMemory && mpk.len() == 0 ==> r is Err
            &&& level != MemoryLevel::NoMemory && mpk.len() > 0 && !is_definition ==> (mpk
                == record.pubkey@ <==> r == Ok::<Option<Seq<char>>, Seq<char>>(Some(mpk)))
            &&& level != MemoryLevel::NoMemory && mpk.len() > 0 && !is_definition && mpk
                != record.pubkey@ ==> r is Err
            &&& forall|i: int|
                level != MemoryLevel::NoMemory && mpk.len() > 0 && is_definition
                    && #[trigger] is_first_with_pubkey(instances, mpk, i) ==> (opt_string_view(
                    instances[i].persona_id,
                ) == Some(str_or_empty(opt_string_view(record.slug))) <==> r == Ok::<
                    Option<Seq<char>>,
                    Seq<char>,
                >(Some(mpk)))
            &&& level != MemoryLevel::NoMemory && is_definition && no_pubkey_matches(instances, mpk)
                ==> r is Err
            &&& r matches Ok(Some(m)) ==> m == mpk
        }),
{
    let mpk = trimmed(str_or_empty(source));
    assert forall|i: int|
        level != MemoryLevel::NoMemory && mpk.len() > 0 && is_definition
            && #[trigger] is_first_with_pubkey(instances, mpk, i) implies (opt_string_view(
        instances[i].persona_id,
    ) == Some(str_or_empty(opt_string_view(record.slug))) <==> spec_memory_pubkey(
        level,
        source,
        record,
        is_definition,
        instances,
        id,
    ) == Ok::<Option<Seq<char>>, Seq<char>>(Some(mpk))) by {
        let c = choose|k: int| is_first_with_pubkey(instances, mpk, k);
        lemma_first_with_pubkey_unique(instances, mpk, i, c);
    }
    if level != MemoryLevel::NoMemory && is_definition && no_pubkey_matches(instances, mpk) {
        if exists|k: int| is_first_with_pubkey(instances, mpk, k) {
            let k = choose|k: int| is_first_with_pubkey(instances, mpk, k);
            assert(instances[k].pubkey@ == mpk);
        }
    }
}

/// Law: the options read are the ones named. `"png"` is a PNG export and
/// `"json"` or the empty text a JSON one; `"none"` or the empty text,
/// `"core"` and `"everything"` are the three memory levels; any other value
/// of either is refused.
pub proof fn law_export_options_named(level: Seq<char>, format: Seq<char>)
    ensures
        spec_export_options(level, format) matches Ok((l, png)) ==> {
            &&& png == (format == "png"@)
            &&& (l == MemoryLevel::Core <==> level == "core"@)
            &&& (l == MemoryLevel::Everything <==> level == "everything"@)
            &&& (l == MemoryLevel::NoMemory <==> (level == "none"@ || level == ""@))
        },
        !(level == "none"@ || level == ""@ || level == "core"@ || level == "everything"@)
            ==> spec_export_options(level, format) is Err,
        !(format == "json"@ || format == ""@ || format == "png"@) ==> spec_export_options(
            level,
            format,
        ) is Err,
        (level == "none"@ || level == ""@ || level == "core"@ || level == "everything"@) && (
        format == "json"@ || format == ""@ || format == "png"@) ==> (spec_export_options(
            level,
            format,
        ) is Err <==> (format == "png"@ && (level == "core"@ || level == "everything"@))),
{
    reveal_strlit("png");
    reveal_strlit("json");
    reveal_strlit("");
    reveal_strlit("none");
    reveal_strlit("core");
    reveal_strlit("everything");
    assert("png"@[0] != "json"@[0]);
    assert("core"@[0] != "none"@[0]);
    assert("core"@[0] != "everything"@[0]);
    assert("none"@[0] != "everything"@[0]);
    assert("png"@.len() != ""@.len());
    assert("core"@.len() != ""@.len());
    assert("everything"@.len() != ""@.len());
}

/// Law: without a pubkey match, the first slug match is the named
/// instance: its slug is the id and no earlier record has that slug.
pub proof fn law_slug_fallback(s: Seq<ManagedAgentRecord>, id: Seq<char>, k: int, i: int)
    requires
        no_pubkey_matches(s, id),
        0 <= k < s.len(),
        slug_is(s[k], id),
        is_named_instance(s, id, i),
    ensures
        opt_string_view(s[i].slug) == Some(id),
        i <= k,
        forall|j: int| 0 <= j < i ==> opt_string_view((#[trigger] s[j]).slug) != Some(id),
{
    if k < i {
        assert(!slug_is(s[k], id));
    }
    assert forall|j: int| 0 <= j < i implies opt_string_view((#[trigger] s[j]).slug) != Some(id) by {
        assert(!slug_is(s[j], id));
    }
}

/// Law: the name shown is the display name when there is one, else the name.
pub proof fn law_display_name_choice(display_name: Option<Seq<char>>, name: Seq<char>)
    ensures
        display_name is Some ==> str_or(display_name, name) == display_name->0,
        display_name is None ==> str_or(display_name, name) == name,
{
}

/// The name shown for the exported agent: its display name, else its name.
pub fn snapshot_display_name(record: &ManagedAgentRecord) -> (r: String)
    ensures
        r@ == str_or(opt_string_view(record.display_name), record.name@),
{
    match &record.display_name {
        Some(d) => d.clone(),
        None => record.name.clone(),
    }
}

/// The text in `o`, else `fallback`.
pub open spec fn str_or(o: Option<Seq<char>>, fallback: Seq<char>) -> Seq<char> {
    match o {
        Some(s) => s,
        None => fallback,
    }
}

/// The memory entries of a snapshot: none without memory; the core entry,
/// when there is one; and after it every other memory, at level
/// `Everything` only.
pub open spec fn spec_memory_entries(
    level: MemoryLevel,
    core: Option<AgentSnapshotMemoryEntry>,
    memories: Seq<AgentSnapshotMemoryEntry>,
) -> Seq<AgentSnapshotMemoryEntry> {
    if level == MemoryLevel::NoMemory {
        Seq::empty()
    } else {
        let head = match core {
            Some(c) => seq![c],
            None => Seq::empty(),
        };
        if level == MemoryLevel::Everything {
            head + memories
        } else {
            head
        }
    }
}

/// Gathers the memory entries that go into a snapshot.
pub fn collect_memory_entries(
    level: MemoryLevel,
    core: Option<AgentSnapshotMemoryEntry>,
    memories: Vec<AgentSnapshotMemoryEntry>,
) -> (r: Vec<AgentSnapshotMemoryEntry>)
    ensures
        r@ == spec_memory_entries(level, core, memories@),
{
    let mut entries: Vec<AgentSnapshotMemoryEntry> = Vec::new();
    if level == MemoryLevel::NoMemory {
        return entries;
    }
    match core {
        Some(c) => entries.push(c),
        None => {},
    }
    if level == MemoryLevel::Everything {
        let mut rest = memories;
        entries.append(&mut rest);
    }
    entries
}

/// Law: which memories a snapshot carries. Without memory, none. At level
/// `Core`, exactly the core entry when there is one and nothing otherwise:
/// no other memory ever gets in. At level `Everything`, the core entry (when
/// there is one) followed by every other memory, in order.
pub proof fn law_memory_entries_by_level(
    core: Option<AgentSnapshotMemoryEntry>,
    memories: Seq<AgentSnapshotMemoryEntry>,
)
    ensures
        spec_memory_entries(MemoryLevel::NoMemory, core, memories) == Seq::<
            AgentSnapshotMemoryEntry,
        >::empty(),
        core is None ==> spec_memory_entries(MemoryLevel::Core, core, memories) == Seq::<
            AgentSnapshotMemoryEntry,
        >::empty(),
        core matches Some(c) ==> spec_memory_entries(MemoryLevel::Core, core, memories) == seq![c],
        core is None ==> spec_memory_entries(MemoryLevel::Everything, core, memories) == memories,
        core matches Some(c) ==> spec_memory_entries(MemoryLevel::Everything, core, memories)
            == seq![c] + memories,
        forall|level: MemoryLevel|
            level != MemoryLevel::Everything ==> (#[trigger] spec_memory_entries(
                level,
                core,
                memories,
            )).len() <= 1,
        forall|level: MemoryLevel, i: int|
            level != MemoryLevel::Everything && 0 <= i < spec_memory_entries(
                level,
                core,
                memories,
            ).len() ==> core == Some(#[trigger] spec_memory_entries(level, core, memories)[i]),
{
    match core {
        Some(c) => {
            assert(seq![c] + memories =~= seq![c] + memories);
        },
        None => {
            assert(Seq::<AgentSnapshotMemoryEntry>::empty() + memories =~= memories);
        },
    }
}

/// Where an exported snapshot is saved: the file name offered and the
/// dialog's file filter.
#[derive(Debug)]
pub struct SaveTarget {
    pub filename: String,
    pub filter_name: String,
    pub extension: String,
}

/// The save target of a snapshot named `slug`: `<slug>.agent.png` under the
/// filter "PNG image" (`png`), or `<slug>.agent.json` under "Agent snapshot"
/// (`json`).
pub open spec fn save_target_is(t: SaveTarget, slug: Seq<char>, is_png: bool) -> bool {
    &&& t.filename@ == slug + (if is_png {
        ".agent.png"@
    } else {
        ".agent.json"@
    })
    &&& t.filter_name@ == (if is_png {
        "PNG image"@
    } else {
        "Agent snapshot"@
    })
    &&& t.extension@ == (if is_png {
        "png"@
    } else {
        "json"@
    })
}

/// Law: the file is named after the snapshot with the extension of its
/// format, and the extension is `png` exactly for a PNG.
pub proof fn law_save_target_shape(t: SaveTarget, slug: Seq<char>, is_png: bool)
    requires
        save_target_is(t, slug, is_png),
    ensures
        t.filename@ == slug + ".agent."@ + t.extension@,
        is_png ==> t.extension@ == "png"@,
        !is_png ==> t.extension@ == "json"@,
{
    reveal_strlit(".agent.png");
    reveal_strlit(".agent.json");
    reveal_strlit(".agent.");
    reveal_strlit("png");
    reveal_strlit("json");
    if is_png {
        assert(".agent.png"@ =~= ".agent."@ + "png"@);
        assert(slug + ".agent.png"@ =~= slug + ".agent."@ + "png"@);
    } else {
        assert(".agent.json"@ =~= ".agent."@ + "json"@);
        assert(slug + ".agent.json"@ =~= slug + ".agent."@ + "json"@);
    }
}

/// Where a snapshot named `slug` is saved.
pub fn snapshot_save_target(slug: &str, is_png: bool) -> (r: SaveTarget)
    ensures
        save_target_is(r, slug@, is_png),
{
    if is_png {
        let mut filename = owned(slug);
        filename.append(".agent.png");
        SaveTarget { filename, filter_name: owned("PNG image"), extension: owned("png") }
    } else {
        let mut filename = owned(slug);
        filename.append(".agent.json");
        SaveTarget { filename, filter_name: owned("Agent snapshot"), extension: owned("json") }
    }
}

/// The error for a snapshot that could not be encoded, given the encoder's
/// message: "Failed to encode .agent.png: …" or "Failed to encode
/// .agent.json: …".
pub open spec fn spec_encode_failure(is_png: bool, detail: Seq<char>) -> Seq<char> {
    (if is_png {
        "Failed to encode .agent.png: "@
    } else {
        "Failed to encode .agent.json: "@
    }) + detail
}

/// Builds the error for a snapshot that could not be encoded.
pub fn encode_failure_message(is_png: bool, detail: &str) -> (r: String)
    ensures
        r@ == spec_encode_failure(is_png, detail@),
{
    let mut r = if is_png {
        owned("Failed to encode .agent.png: ")
    } else {
        owned("Failed to encode .agent.json: ")
    };
    r.append(detail);
    r
}

} // verus!
