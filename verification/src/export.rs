//! The agent snapshot export as a sequence of decisions. The app starts an
//! export with [`begin_export`], performs each action it is handed (loading
//! the stored agents, reading an agent's memory, encoding and saving the
//! file) and reports what came back as an event to [`export_step`], until
//! the action is `Finish`.
//!
//! The store lock is taken with the first `LoadInstances` and held while the
//! export is in `LoadingInstances`, `LoadingDefinitions` or `CheckingLink`:
//! it is released at the first action that is not a load (`FetchMemory`,
//! `Write` or `Finish`), so that the record and the link check see one
//! state of the store.
use vstd::prelude::*;

use crate::managed_agents::{AgentSnapshotMemoryEntry, ManagedAgentRecord, MemoryLevel};
use crate::snapshot::{
    agent_not_found_message, collect_memory_entries, encode_failure_message, instance_matches,
    is_first_slug_match, is_named_instance, lemma_first_slug_match_unique,
    lemma_named_instance_exists, lemma_named_instance_unique, parse_export_options,
    resolve_memory_pubkey, save_target_is, snapshot_display_name, snapshot_save_target,
    spec_agent_not_found, spec_encode_failure, spec_export_options, spec_memory_entries,
    spec_memory_pubkey, str_or, str_or_empty, take_definition, take_keyed_instance, ExportOptions,
    SaveTarget,
};
use crate::text::{debug_quote, debug_quoted, opt_string_view, trim_str, trimmed};

verus! {

/// An accepted export request: what is exported, whose memory, and how.
#[derive(Debug)]
pub struct ExportRequest {
    pub id: String,
    pub memory_source_pubkey: Option<String>,
    pub options: ExportOptions,
}

/// What an agent's memory store returned: its core entry and the rest.
pub struct MemoryListing {
    pub core: Option<AgentSnapshotMemoryEntry>,
    pub memories: Vec<AgentSnapshotMemoryEntry>,
}

/// Everything the snapshot file is made from, once all checks passed.
pub struct SnapshotPlan {
    pub record: ManagedAgentRecord,
    pub memory_level: MemoryLevel,
    pub memory_entries: Vec<AgentSnapshotMemoryEntry>,
    pub display_name: String,
    pub is_png: bool,
}

/// Where an export stands.
pub enum ExportState {
    /// Waiting for the keyed instances.
    LoadingInstances(ExportRequest),
    /// No instance matched; waiting for the keyless definitions.
    LoadingDefinitions(ExportRequest),
    /// A definition was found and memory is wanted; waiting for the keyed
    /// instances, to check that the memory source was made from it.
    CheckingLink(ExportRequest, ManagedAgentRecord),
    /// Waiting for the memory of the checked source.
    FetchingMemory(ExportRequest, ManagedAgentRecord),
    /// Waiting for the snapshot to be built and encoded (`true`: as PNG).
    Encoding(bool),
    /// Waiting for the file to be saved.
    Saving,
    /// Over.
    Finished,
}

/// What the app reports back.
pub enum ExportEvent {
    /// The stored records that were asked for, or why they could not be read.
    Records(Result<Vec<ManagedAgentRecord>, String>),
    /// The memory that was asked for, or why it could not be read.
    Memory(Result<MemoryListing, String>),
    /// The snapshot was encoded, under the file-name slug of its display
    /// name; or the encoder's error message.
    Encoded(Result<String, String>),
    /// Whether the file was written (`false`: the dialog was cancelled).
    Saved(Result<bool, String>),
}

/// What the app is to do next.
pub enum ExportAction {
    /// Load the keyed instances (under the store lock).
    LoadInstances,
    /// Load the keyless definitions (under the store lock).
    LoadDefinitions,
    /// Read the memory of the instance with this pubkey.
    FetchMemory(String),
    /// Build and encode the snapshot, and slug its display name.
    Write(SnapshotPlan),
    /// Save the encoded snapshot through the save dialog.
    Save(SaveTarget),
    /// Answer the command with this.
    Finish(Result<bool, String>),
}

/// The event is the one that the state waits for.
pub open spec fn event_fits(state: ExportState, event: ExportEvent) -> bool {
    match state {
        ExportState::LoadingInstances(_) => event is Records,
        ExportState::LoadingDefinitions(_) => event is Records,
        ExportState::CheckingLink(_, _) => event is Records,
        ExportState::FetchingMemory(_, _) => event is Memory,
        ExportState::Encoding(_) => event is Encoded,
        ExportState::Saving => event is Saved,
        ExportState::Finished => false,
    }
}

/// The export ends with the error text `msg`.
pub open spec fn finishes_with(next: ExportState, action: ExportAction, msg: Seq<char>) -> bool {
    &&& next is Finished
    &&& action matches ExportAction::Finish(Err(e)) && e@ == msg
}

/// The plan holds `record`, the memory `entries` at `level`, the display
/// name of the record and the format.
pub open spec fn plan_is(
    p: SnapshotPlan,
    record: ManagedAgentRecord,
    level: MemoryLevel,
    entries: Seq<AgentSnapshotMemoryEntry>,
    is_png: bool,
) -> bool {
    &&& p.record == record
    &&& p.memory_level == level
    &&& p.memory_entries@ == entries
    &&& p.display_name@ == str_or(opt_string_view(record.display_name), record.name@)
    &&& p.is_png == is_png
}

/// The export goes on to write `record` with `entries`.
pub open spec fn writes(
    next: ExportState,
    action: ExportAction,
    req: ExportRequest,
    record: ManagedAgentRecord,
    entries: Seq<AgentSnapshotMemoryEntry>,
) -> bool {
    &&& next == ExportState::Encoding(req.options.is_png)
    &&& action matches ExportAction::Write(p) && plan_is(
        p,
        record,
        req.options.memory_level,
        entries,
        req.options.is_png,
    )
}

/// What follows the memory-source check `res` for `record`.
pub open spec fn after_memory_check(
    res: Result<Option<Seq<char>>, Seq<char>>,
    req: ExportRequest,
    record: ManagedAgentRecord,
    next: ExportState,
    action: ExportAction,
) -> bool {
    match res {
        Ok(Some(m)) => {
            &&& next == ExportState::FetchingMemory(req, record)
            &&& action matches ExportAction::FetchMemory(p) && p@ == m
        },
        Ok(None) => writes(next, action, req, record, Seq::empty()),
        Err(e) => finishes_with(next, action, e),
    }
}

/// What follows once the exported record is known. A definition with a
/// memory source still needs the instances to check the link; otherwise
/// the memory-source check decides at once.
pub open spec fn after_resolved(
    req: ExportRequest,
    record: ManagedAgentRecord,
    is_definition: bool,
    next: ExportState,
    action: ExportAction,
) -> bool {
    let level = req.options.memory_level;
    let source = opt_string_view(req.memory_source_pubkey);
    if is_definition && level != MemoryLevel::NoMemory && trimmed(str_or_empty(source)).len() > 0 {
        &&& next == ExportState::CheckingLink(req, record)
        &&& action is LoadInstances
    } else {
        after_memory_check(
            spec_memory_pubkey(level, source, record, is_definition, Seq::empty(), req.id@),
            req,
            record,
            next,
            action,
        )
    }
}

/// How the export starts: the options are read and checked before anything
/// is loaded.
pub open spec fn spec_begin_export(
    id: String,
    memory_source_pubkey: Option<String>,
    memory_level: Seq<char>,
    format: Seq<char>,
    next: ExportState,
    action: ExportAction,
) -> bool {
    match spec_export_options(memory_level, format) {
        Err(e) => finishes_with(next, action, e),
        Ok((level, is_png)) => {
            &&& next matches ExportState::LoadingInstances(req) && req.id == id
                && req.memory_source_pubkey == memory_source_pubkey && req.options.memory_level
                == level && req.options.is_png == is_png
            &&& action is LoadInstances
        },
    }
}

/// One step of the export.
pub open spec fn spec_export_step(
    state: ExportState,
    event: ExportEvent,
    next: ExportState,
    action: ExportAction,
) -> bool {
    match state {
        ExportState::LoadingInstances(req) => match event {
            ExportEvent::Records(Err(e)) => next is Finished && action == ExportAction::Finish(
                Err(e),
            ),
            ExportEvent::Records(Ok(instances)) => if exists|i: int|
                is_named_instance(instances@, req.id@, i) {
                let i = choose|i: int| is_named_instance(instances@, req.id@, i);
                after_resolved(req, instances@[i], false, next, action)
            } else {
                next == ExportState::LoadingDefinitions(req) && action is LoadDefinitions
            },
            _ => false,
        },
        ExportState::LoadingDefinitions(req) => match event {
            ExportEvent::Records(Err(e)) => next is Finished && action == ExportAction::Finish(
                Err(e),
            ),
            ExportEvent::Records(Ok(definitions)) => if exists|i: int|
                is_first_slug_match(definitions@, req.id@, i) {
                let i = choose|i: int| is_first_slug_match(definitions@, req.id@, i);
                after_resolved(req, definitions@[i], true, next, action)
            } else {
                finishes_with(next, action, spec_agent_not_found(debug_quoted(req.id@)))
            },
            _ => false,
        },
        ExportState::CheckingLink(req, record) => match event {
            ExportEvent::Records(Err(e)) => next is Finished && action == ExportAction::Finish(
                Err(e),
            ),
            ExportEvent::Records(Ok(instances)) => after_memory_check(
                spec_memory_pubkey(
                    req.options.memory_level,
                    opt_string_view(req.memory_source_pubkey),
                    record,
                    true,
                    instances@,
                    req.id@,
                ),
                req,
                record,
                next,
                action,
            ),
            _ => false,
        },
        ExportState::FetchingMemory(req, record) => match event {
            ExportEvent::Memory(Err(e)) => next is Finished && action == ExportAction::Finish(
                Err(e),
            ),
            ExportEvent::Memory(Ok(listing)) => writes(
                next,
                action,
                req,
                record,
                spec_memory_entries(req.options.memory_level, listing.core, listing.memories@),
            ),
            _ => false,
        },
        ExportState::Encoding(is_png) => match event {
            ExportEvent::Encoded(Err(detail)) => finishes_with(
                next,
                action,
                spec_encode_failure(is_png, detail@),
            ),
            ExportEvent::Encoded(Ok(slug)) => {
                &&& next is Saving
                &&& action matches ExportAction::Save(t) && save_target_is(t, slug@, is_png)
            },
            _ => false,
        },
        ExportState::Saving => match event {
            ExportEvent::Saved(r) => next is Finished && action == ExportAction::Finish(r),
            _ => false,
        },
        ExportState::Finished => false,
    }
}

/// The request obeys the option rule that a PNG carries no memory.
pub open spec fn request_ok(req: ExportRequest) -> bool {
    req.options.is_png ==> req.options.memory_level == MemoryLevel::NoMemory
}

/// The request that a state carries, if any, obeys the option rule.
pub open spec fn state_request_ok(state: ExportState) -> bool {
    match state {
        ExportState::LoadingInstances(req) => request_ok(req),
        ExportState::LoadingDefinitions(req) => request_ok(req),
        ExportState::CheckingLink(req, _) => request_ok(req),
        ExportState::FetchingMemory(req, _) => request_ok(req),
        _ => true,
    }
}

/// The state belongs to a PNG export.
pub open spec fn state_is_png(state: ExportState) -> bool {
    match state {
        ExportState::LoadingInstances(req) => req.options.is_png,
        ExportState::LoadingDefinitions(req) => req.options.is_png,
        ExportState::CheckingLink(req, _) => req.options.is_png,
        ExportState::FetchingMemory(req, _) => req.options.is_png,
        ExportState::Encoding(is_png) => is_png,
        _ => false,
    }
}

/// Law: every export starts from a request that obeys the PNG rule.
pub proof fn law_begin_export_obeys_png_rule(
    id: String,
    memory_source_pubkey: Option<String>,
    memory_level: Seq<char>,
    format: Seq<char>,
    next: ExportState,
    action: ExportAction,
)
    requires
        spec_begin_export(id, memory_source_pubkey, memory_level, format, next, action),
    ensures
        state_request_ok(next),
{
}

/// Law: a PNG export never reads memory and never writes memory entries,
/// its file is saved with the extension of its format, and every step keeps
/// the PNG rule.
pub proof fn law_png_export_never_reads_memory(
    state: ExportState,
    event: ExportEvent,
    next: ExportState,
    action: ExportAction,
)
    requires
        state_request_ok(state),
        spec_export_step(state, event, next, action),
    ensures
        state_request_ok(next),
        state_is_png(state) ==> !(action is FetchMemory),
        action matches ExportAction::Write(p) ==> (p.is_png ==> p.memory_entries@.len() == 0),
        action matches ExportAction::Save(t) ==> t.extension@ == (if state_is_png(state) {
            "png"@
        } else {
            "json"@
        }),
{
}

/// Law: the format chosen at the start is kept to the end. An export is
/// PNG exactly when its format is `"png"`; every plan handed out to be
/// written carries the format of the export it belongs to, and the export
/// then waits for that format's encoding.
pub proof fn law_begin_export_format(
    id: String,
    memory_source_pubkey: Option<String>,
    memory_level: Seq<char>,
    format: Seq<char>,
    next: ExportState,
    action: ExportAction,
)
    requires
        spec_begin_export(id, memory_source_pubkey, memory_level, format, next, action),
    ensures
        next matches ExportState::LoadingInstances(req) ==> {
            &&& (req.options.is_png <==> format == "png"@)
            &&& (req.options.memory_level == MemoryLevel::Core <==> memory_level == "core"@)
            &&& (req.options.memory_level == MemoryLevel::Everything <==> memory_level
                == "everything"@)
            &&& req.id == id
            &&& req.memory_source_pubkey == memory_source_pubkey
        },
        next is Finished <==> spec_export_options(memory_level, format) is Err,
{
    crate::snapshot::law_export_options_named(memory_level, format);
}

/// Law: memory is fetched only from the checked source. Whenever a step asks
/// for memory, the export carries on with the same request and record, the
/// request wants memory, and the pubkey asked for is the request's source,
/// trimmed; for a keyed instance it is that instance's own pubkey.
pub proof fn law_memory_fetched_from_source(
    state: ExportState,
    event: ExportEvent,
    next: ExportState,
    action: ExportAction,
)
    requires
        spec_export_step(state, event, next, action),
    ensures
        action matches ExportAction::FetchMemory(p) ==> (next matches ExportState::FetchingMemory(
            req,
            rec,
        ) && req.options.memory_level != MemoryLevel::NoMemory && p@ == trimmed(
            str_or_empty(opt_string_view(req.memory_source_pubkey)),
        ) && p@.len() > 0 && (state is LoadingInstances ==> p@ == rec.pubkey@)),
{
    match state {
        ExportState::LoadingInstances(req) => match event {
            ExportEvent::Records(Ok(instances)) => {
                if exists|i: int| is_named_instance(instances@, req.id@, i) {
                    let i = choose|i: int| is_named_instance(instances@, req.id@, i);
                    crate::snapshot::law_memory_pubkey_outcomes(
                        req.options.memory_level,
                        opt_string_view(req.memory_source_pubkey),
                        instances@[i],
                        false,
                        Seq::empty(),
                        req.id@,
                    );
                }
            },
            _ => {},
        },
        ExportState::LoadingDefinitions(req) => match event {
            ExportEvent::Records(Ok(definitions)) => {
                if exists|i: int| is_first_slug_match(definitions@, req.id@, i) {
                    let i = choose|i: int| is_first_slug_match(definitions@, req.id@, i);
                    crate::snapshot::law_memory_pubkey_outcomes(
                        req.options.memory_level,
                        opt_string_view(req.memory_source_pubkey),
                        definitions@[i],
                        true,
                        Seq::empty(),
                        req.id@,
                    );
                }
            },
            _ => {},
        },
        ExportState::CheckingLink(req, record) => match event {
            ExportEvent::Records(Ok(instances)) => {
                crate::snapshot::law_memory_pubkey_outcomes(
                    req.options.memory_level,
                    opt_string_view(req.memory_source_pubkey),
                    record,
                    true,
                    instances@,
                    req.id@,
                );
            },
            _ => {},
        },
        _ => {},
    }
}

/// Law: a paired memory source is always read. When the exported keyed
/// instance's own pubkey is the trimmed source and memory is wanted, the
/// next action fetches that pubkey's memory; likewise after the link check
/// of a definition accepted the source.
pub proof fn law_memory_fetched_when_paired(
    req: ExportRequest,
    instances: Vec<ManagedAgentRecord>,
    i: int,
    record: ManagedAgentRecord,
    next: ExportState,
    action: ExportAction,
    link_next: ExportState,
    link_action: ExportAction,
)
    requires
        req.options.memory_level != MemoryLevel::NoMemory,
    ensures
        is_named_instance(instances@, req.id@, i) && trimmed(
            str_or_empty(opt_string_view(req.memory_source_pubkey)),
        ) == instances@[i].pubkey@ && instances@[i].pubkey@.len() > 0 && spec_export_step(
            ExportState::LoadingInstances(req),
            ExportEvent::Records(Ok(instances)),
            next,
            action,
        ) ==> (action matches ExportAction::FetchMemory(p) && p@ == instances@[i].pubkey@),
        spec_memory_pubkey(
            req.options.memory_level,
            opt_string_view(req.memory_source_pubkey),
            record,
            true,
            instances@,
            req.id@,
        ) is Ok && spec_export_step(
            ExportState::CheckingLink(req, record),
            ExportEvent::Records(Ok(instances)),
            link_next,
            link_action,
        ) ==> (link_action matches ExportAction::FetchMemory(p) && p@ == trimmed(
            str_or_empty(opt_string_view(req.memory_source_pubkey)),
        )),
{
    if is_named_instance(instances@, req.id@, i) {
        let c = choose|k: int| is_named_instance(instances@, req.id@, k);
        crate::snapshot::lemma_named_instance_unique(instances@, req.id@, i, c);
        crate::snapshot::law_memory_pubkey_outcomes(
            req.options.memory_level,
            opt_string_view(req.memory_source_pubkey),
            instances@[i],
            false,
            Seq::empty(),
            req.id@,
        );
    }
    crate::snapshot::law_memory_pubkey_outcomes(
        req.options.memory_level,
        opt_string_view(req.memory_source_pubkey),
        record,
        true,
        instances@,
        req.id@,
    );
}

/// Law: every plan handed out to be written carries the format of its
/// export, and the export then waits for that format's encoding.
pub proof fn law_plan_keeps_format(
    state: ExportState,
    event: ExportEvent,
    next: ExportState,
    action: ExportAction,
)
    requires
        spec_export_step(state, event, next, action),
    ensures
        action matches ExportAction::Write(p) ==> {
            &&& p.is_png == state_is_png(state)
            &&& next == ExportState::Encoding(state_is_png(state))
        },
{
}

/// Law: failures reported by the app end the export with that same text:
/// a store or memory error as it came, a save error as it came, an encoder
/// error behind "Failed to encode .agent.png: " or ".agent.json: ". A saved
/// or cancelled dialog ends it with that outcome.
pub proof fn law_failures_pass_through(
    state: ExportState,
    event: ExportEvent,
    next: ExportState,
    action: ExportAction,
)
    requires
        spec_export_step(state, event, next, action),
    ensures
        event matches ExportEvent::Records(Err(e)) ==> action == ExportAction::Finish(Err(e))
            && next is Finished,
        event matches ExportEvent::Memory(Err(e)) ==> action == ExportAction::Finish(Err(e))
            && next is Finished,
        event matches ExportEvent::Saved(r) ==> action == ExportAction::Finish(r) && next is Finished,
        event matches ExportEvent::Encoded(Err(d)) ==> next is Finished && (
        action matches ExportAction::Finish(Err(m)) && m@ == (if state_is_png(state) {
            "Failed to encode .agent.png: "@
        } else {
            "Failed to encode .agent.json: "@
        }) + d@),
{
}

/// Law: keyed instances shadow definitions. When a loaded instance is named
/// by the id, the definitions are never asked for.
pub proof fn law_matching_instance_shadows_definitions(
    req: ExportRequest,
    instances: Vec<ManagedAgentRecord>,
    k: int,
    next: ExportState,
    action: ExportAction,
)
    requires
        0 <= k < instances@.len(),
        instance_matches(instances@[k], req.id@),
        spec_export_step(
            ExportState::LoadingInstances(req),
            ExportEvent::Records(Ok(instances)),
            next,
            action,
        ),
    ensures
        !(action is LoadDefinitions),
        !(next is LoadingDefinitions),
{
    lemma_named_instance_exists(instances@, req.id@, k);
}

/// Starts an export of `id`: reads and checks the memory level and format
/// (an unknown value, or a PNG with memory, ends it at once), then asks for
/// the keyed instances.
pub fn begin_export(
    id: String,
    memory_source_pubkey: Option<String>,
    memory_level: &str,
    format: &str,
) -> (r: (ExportState, ExportAction))
    ensures
        spec_begin_export(id, memory_source_pubkey, memory_level@, format@, r.0, r.1),
{
    match parse_export_options(memory_level, format) {
        Err(e) => (ExportState::Finished, ExportAction::Finish(Err(e))),
        Ok(options) => (
            ExportState::LoadingInstances(ExportRequest { id, memory_source_pubkey, options }),
            ExportAction::LoadInstances,
        ),
    }
}

/// The plan to write `record` with `entries`.
fn make_plan(
    record: ManagedAgentRecord,
    level: MemoryLevel,
    entries: Vec<AgentSnapshotMemoryEntry>,
    is_png: bool,
) -> (p: SnapshotPlan)
    ensures
        plan_is(p, record, level, entries@, is_png),
{
    let display_name = snapshot_display_name(&record);
    SnapshotPlan { record, memory_level: level, memory_entries: entries, display_name, is_png }
}

/// The borrowed text of an optional owned string.
fn opt_as_str(o: &Option<String>) -> (r: Option<&str>)
    ensures
        match r {
            Some(s) => opt_string_view(*o) == Some(s@),
            None => o is None,
        },
{
    match o {
        Some(s) => Some(s.as_str()),
        None => None,
    }
}

/// Goes on after the memory-source check.
fn continue_after_check(
    res: Result<Option<String>, String>,
    req: ExportRequest,
    record: ManagedAgentRecord,
) -> (r: (ExportState, ExportAction))
    ensures
        after_memory_check(
            match res {
                Ok(Some(m)) => Ok(Some(m@)),
                Ok(None) => Ok(None),
                Err(e) => Err(e@),
            },
            req,
            record,
            r.0,
            r.1,
        ),
{
    match res {
        Ok(Some(m)) => (ExportState::FetchingMemory(req, record), ExportAction::FetchMemory(m)),
        Ok(None) => {
            let level = req.options.memory_level;
            let is_png = req.options.is_png;
            let plan = make_plan(record, level, Vec::new(), is_png);
            (ExportState::Encoding(is_png), ExportAction::Write(plan))
        },
        Err(e) => (ExportState::Finished, ExportAction::Finish(Err(e))),
    }
}

/// Goes on once the exported record is known.
fn continue_resolved(req: ExportRequest, record: ManagedAgentRecord, is_definition: bool) -> (r: (
    ExportState,
    ExportAction,
))
    ensures
        after_resolved(req, record, is_definition, r.0, r.1),
{
    let level = req.options.memory_level;
    let wants_link = if is_definition && level != MemoryLevel::NoMemory {
        let source: &str = match &req.memory_source_pubkey {
            Some(s) => s.as_str(),
            None => "",
        };
        !trim_str(source).is_empty()
    } else {
        false
    };
    if wants_link {
        return (ExportState::CheckingLink(req, record), ExportAction::LoadInstances);
    }
    let no_instances: Vec<ManagedAgentRecord> = Vec::new();
    let res = resolve_memory_pubkey(
        level,
        opt_as_str(&req.memory_source_pubkey),
        &record,
        is_definition,
        &no_instances,
        req.id.as_str(),
    );
    continue_after_check(res, req, record)
}

/// Takes the export one step further with what the app reports.
pub fn export_step(state: ExportState, event: ExportEvent) -> (r: (ExportState, ExportAction))
    requires
        event_fits(state, event),
    ensures
        spec_export_step(state, event, r.0, r.1),
{
    match state {
        ExportState::LoadingInstances(req) => match event {
            ExportEvent::Records(Err(e)) => (ExportState::Finished, ExportAction::Finish(Err(e))),
            ExportEvent::Records(Ok(instances)) => {
                let ghost all = instances@;
                match take_keyed_instance(instances, req.id.as_str()) {
                    Some(record) => {
                        proof {
                            let i = choose|i: int| is_named_instance(all, req.id@, i) && record == all[i];
                            let c = choose|k: int| is_named_instance(all, req.id@, k);
                            lemma_named_instance_unique(all, req.id@, i, c);
                        }
                        continue_resolved(req, record, false)
                    },
                    None => (ExportState::LoadingDefinitions(req), ExportAction::LoadDefinitions),
                }
            },
            _ => (ExportState::Finished, ExportAction::LoadInstances),
        },
        ExportState::LoadingDefinitions(req) => match event {
            ExportEvent::Records(Err(e)) => (ExportState::Finished, ExportAction::Finish(Err(e))),
            ExportEvent::Records(Ok(definitions)) => {
                let ghost all = definitions@;
                match take_definition(definitions, req.id.as_str()) {
                    Some(record) => {
                        proof {
                            let i = choose|i: int| is_first_slug_match(all, req.id@, i) && record == all[i];
                            let c = choose|k: int| is_first_slug_match(all, req.id@, k);
                            lemma_first_slug_match_unique(all, req.id@, i, c);
                        }
                        continue_resolved(req, record, true)
                    },
                    None => {
                        let quoted = debug_quote(req.id.as_str());
                        (
                            ExportState::Finished,
                            ExportAction::Finish(Err(agent_not_found_message(quoted.as_str()))),
                        )
                    },
                }
            },
            _ => (ExportState::Finished, ExportAction::LoadInstances),
        },
        ExportState::CheckingLink(req, record) => match event {
            ExportEvent::Records(Err(e)) => (ExportState::Finished, ExportAction::Finish(Err(e))),
            ExportEvent::Records(Ok(instances)) => {
                let res = resolve_memory_pubkey(
                    req.options.memory_level,
                    opt_as_str(&req.memory_source_pubkey),
                    &record,
                    true,
                    &instances,
                    req.id.as_str(),
                );
                continue_after_check(res, req, record)
            },
            _ => (ExportState::Finished, ExportAction::LoadInstances),
        },
        ExportState::FetchingMemory(req, record) => match event {
            ExportEvent::Memory(Err(e)) => (ExportState::Finished, ExportAction::Finish(Err(e))),
            ExportEvent::Memory(Ok(listing)) => {
                let level = req.options.memory_level;
                let is_png = req.options.is_png;
                let entries = collect_memory_entries(level, listing.core, listing.memories);
                let plan = make_plan(record, level, entries, is_png);
                (ExportState::Encoding(is_png), ExportAction::Write(plan))
            },
            _ => (ExportState::Finished, ExportAction::LoadInstances),
        },
        ExportState::Encoding(is_png) => match event {
            ExportEvent::Encoded(Err(detail)) => (
                ExportState::Finished,
                ExportAction::Finish(Err(encode_failure_message(is_png, detail.as_str()))),
            ),
            ExportEvent::Encoded(Ok(slug)) => (
                ExportState::Saving,
                ExportAction::Save(snapshot_save_target(slug.as_str(), is_png)),
            ),
            _ => (ExportState::Finished, ExportAction::LoadInstances),
        },
        ExportState::Saving => match event {
            ExportEvent::Saved(r) => (ExportState::Finished, ExportAction::Finish(r)),
            _ => (ExportState::Finished, ExportAction::LoadInstances),
        },
        ExportState::Finished => (ExportState::Finished, ExportAction::LoadInstances),
    }
}

} // verus!
