//! Agent creation and profile upkeep: the shared-compute (relay mesh)
//! setting, avatar resolution and whether a published profile is stale.
use vstd::prelude::*;

use crate::managed_agents::{command_avatar_url, managed_agent_avatar_url};
use crate::relay::AgentProfileInfo;
use crate::text::{
    lemma_trimmed_idempotent, opt_str_view, opt_string_is, opt_string_view, owned, trim_str, trimmed,
};

verus! {

/// The JSON value that `serde_json` parses; the agent logic only carries it.
#[verifier::external_type_specification]
#[verifier::external_body]
pub struct ExJsonValue(serde_json::Value);

/// The shared-compute setting of an agent: which model the mesh serves.
#[derive(Clone, Debug, PartialEq, Eq)]
pub struct RelayMeshConfig {
    pub model_ref: String,
}

/// Where an agent's model runs.
pub enum BackendKind {
    /// On this machine.
    Local,
    /// At a hosted provider, with its own settings.
    Provider { id: String, config: serde_json::Value },
}

/// The error for a shared-compute setting without a model.
pub open spec fn mesh_model_required_message() -> Seq<char> {
    "Buzz shared compute model is required"@
}

/// The error for a shared-compute setting on a non-local backend.
pub open spec fn mesh_backend_not_local_message() -> Seq<char> {
    "Buzz shared compute agents must use the local backend"@
}

/// The model of an optional setting.
pub open spec fn mesh_model(m: Option<&RelayMeshConfig>) -> Option<Seq<char>> {
    match m {
        Some(c) => Some(c.model_ref@),
        None => None,
    }
}

/// The outcome of normalising a setting, seen as characters.
pub open spec fn mesh_result_view(r: Result<Option<RelayMeshConfig>, String>) -> Result<
    Option<Seq<char>>,
    Seq<char>,
> {
    match r {
        Ok(Some(c)) => Ok(Some(c.model_ref@)),
        Ok(None) => Ok(None),
        Err(e) => Err(e@),
    }
}

/// Normalising a shared-compute setting: none stays none; a model that is
/// blank once trimmed is refused, then a backend that is not local; else
/// the trimmed model is kept.
pub open spec fn spec_normalize_relay_mesh(model: Option<Seq<char>>, local: bool) -> Result<
    Option<Seq<char>>,
    Seq<char>,
> {
    match model {
        None => Ok(None),
        Some(m) => if trimmed(m).len() == 0 {
            Err(mesh_model_required_message())
        } else if !local {
            Err(mesh_backend_not_local_message())
        } else {
            Ok(Some(trimmed(m)))
        },
    }
}

/// Checks and normalises the shared-compute setting of an agent.
pub fn normalize_relay_mesh(relay_mesh: Option<&RelayMeshConfig>, backend: &BackendKind) -> (r:
    Result<Option<RelayMeshConfig>, String>)
    ensures
        mesh_result_view(r) == spec_normalize_relay_mesh(
            mesh_model(relay_mesh),
            backend is Local,
        ),
{
    match relay_mesh {
        None => Ok(None),
        Some(config) => {
            let model_ref = trim_str(config.model_ref.as_str());
            if model_ref.is_empty() {
                Err(owned("Buzz shared compute model is required"))
            } else {
                match backend {
                    BackendKind::Local => Ok(Some(RelayMeshConfig { model_ref: owned(model_ref) })),
                    BackendKind::Provider { .. } => Err(
                        owned("Buzz shared compute agents must use the local backend"),
                    ),
                }
            }
        },
    }
}

/// Law: a setting that normalisation accepted is accepted again unchanged.
pub proof fn law_normalize_relay_mesh_idempotent(model: Seq<char>)
    requires
        spec_normalize_relay_mesh(Some(model), true) is Ok,
    ensures
        ({
            let once = spec_normalize_relay_mesh(Some(model), true);
            match once {
                Ok(Some(n)) => spec_normalize_relay_mesh(Some(n), true) == once,
                _ => false,
            }
        }),
{
    lemma_trimmed_idempotent(model);
}

/// An optional text, trimmed, where it is not blank.
pub open spec fn non_blank(o: Option<Seq<char>>) -> Option<Seq<char>> {
    match o {
        Some(s) => if trimmed(s).len() > 0 {
            Some(trimmed(s))
        } else {
            None
        },
        None => None,
    }
}

/// The avatar of a new agent: the explicit input, else the persona's avatar
/// (each trimmed, and only where not blank), else the command's default.
pub open spec fn spec_created_avatar_url(
    input: Option<Seq<char>>,
    persona: Option<Seq<char>>,
    command: Seq<char>,
) -> Option<Seq<char>> {
    match non_blank(input) {
        Some(u) => Some(u),
        None => match non_blank(persona) {
            Some(u) => Some(u),
            None => command_avatar_url(command),
        },
    }
}

/// The trimmed text of an optional slice, where it is not blank.
fn non_blank_str(o: Option<&str>) -> (r: Option<String>)
    ensures
        opt_string_view(r) == non_blank(opt_str_view(o)),
{
    match o {
        Some(s) => {
            let t = trim_str(s);
            if t.is_empty() {
                None
            } else {
                Some(owned(t))
            }
        },
        None => None,
    }
}

/// Chooses the avatar URL of a newly created agent.
pub fn resolve_created_avatar_url(
    input: Option<&str>,
    persona_avatar: Option<String>,
    command: &str,
) -> (r: Option<String>)
    ensures
        opt_string_view(r) == spec_created_avatar_url(
            opt_str_view(input),
            opt_string_view(persona_avatar),
            command@,
        ),
{
    let explicit = non_blank_str(input);
    if explicit.is_some() {
        return explicit;
    }
    let persona = match &persona_avatar {
        Some(p) => non_blank_str(Some(p.as_str())),
        None => None,
    };
    if persona.is_some() {
        return persona;
    }
    managed_agent_avatar_url(command)
}

/// Law: an avatar resolved from an input or a persona is already trimmed,
/// so giving it back as the explicit input resolves to it again.
pub proof fn law_created_avatar_is_stable(
    input: Option<Seq<char>>,
    persona: Option<Seq<char>>,
    command: Seq<char>,
    other_persona: Option<Seq<char>>,
    other_command: Seq<char>,
)
    requires
        non_blank(input) is Some || non_blank(persona) is Some,
    ensures
        ({
            let u = spec_created_avatar_url(input, persona, command);
            &&& u is Some
            &&& spec_created_avatar_url(u, other_persona, other_command) == u
        }),
{
    match input {
        Some(s) => lemma_trimmed_idempotent(s),
        None => {},
    }
    match persona {
        Some(s) => lemma_trimmed_idempotent(s),
        None => {},
    }
}

/// A published profile needs rewriting unless it exists and shows exactly
/// the expected name and picture.
pub open spec fn spec_profile_needs_sync(
    existing: Option<(Option<Seq<char>>, Option<Seq<char>>)>,
    name: Seq<char>,
    avatar: Option<Seq<char>>,
) -> bool {
    match existing {
        None => true,
        Some((shown_name, shown_picture)) => shown_name != Some(name) || shown_picture != avatar,
    }
}

/// The name and picture of an optional published profile.
pub open spec fn profile_view(p: Option<&AgentProfileInfo>) -> Option<
    (Option<Seq<char>>, Option<Seq<char>>),
> {
    match p {
        Some(info) => Some((opt_string_view(info.display_name), opt_string_view(info.picture))),
        None => None,
    }
}

/// Whether the agent's published profile must be written again.
pub fn profile_needs_sync(
    existing: Option<&AgentProfileInfo>,
    expected_name: &str,
    expected_avatar: Option<&str>,
) -> (r: bool)
    ensures
        r == spec_profile_needs_sync(profile_view(existing), expected_name@, opt_str_view(expected_avatar)),
{
    match existing {
        None => true,
        Some(info) => {
            if !opt_string_is(&info.display_name, expected_name) {
                return true;
            }
            match expected_avatar {
                Some(a) => !opt_string_is(&info.picture, a),
                None => info.picture.is_some(),
            }
        },
    }
}

/// Law: a profile made from the expected name and picture is in sync.
pub proof fn law_profile_of_expected_is_in_sync(name: Seq<char>, avatar: Option<Seq<char>>)
    ensures
        !spec_profile_needs_sync(Some((Some(name), avatar)), name, avatar),
{
}

/// Law: a published profile is left alone only when it exists and shows
/// exactly the expected name and the expected picture. A missing profile,
/// a different or missing name, and a picture that differs in either
/// direction (one where none is expected, none where one is expected, or
/// another one) all need a rewrite.
pub proof fn law_profile_in_sync_only_when_equal(
    existing: Option<(Option<Seq<char>>, Option<Seq<char>>)>,
    name: Seq<char>,
    avatar: Option<Seq<char>>,
)
    ensures
        existing is None ==> spec_profile_needs_sync(existing, name, avatar),
        !spec_profile_needs_sync(existing, name, avatar) ==> existing == Some(
            (Some(name), avatar),
        ),
        existing matches Some((n, pic)) ==> (n != Some(name) ==> spec_profile_needs_sync(
            existing,
            name,
            avatar,
        )),
        existing matches Some((n, pic)) ==> (pic != avatar ==> spec_profile_needs_sync(
            existing,
            name,
            avatar,
        )),
{
}

/// The avatar of an agent created before avatars were stored: the persona's
/// avatar, else the picture the relay shows, else the command's default,
/// else empty.
pub open spec fn spec_legacy_avatar(
    persona: Option<Seq<char>>,
    relay_picture: Option<Seq<char>>,
    command: Seq<char>,
) -> Seq<char> {
    match persona {
        Some(p) => p,
        None => match relay_picture {
            Some(r) => r,
            None => match command_avatar_url(command) {
                Some(u) => u,
                None => Seq::empty(),
            },
        },
    }
}

/// Recovers the avatar of a legacy agent. The persona's avatar wins over the
/// relay picture, which may have been overwritten with a command default.
pub fn resolve_legacy_avatar(
    persona_avatar: Option<String>,
    relay_picture: Option<String>,
    command: &str,
) -> (r: String)
    ensures
        r@ == spec_legacy_avatar(
            opt_string_view(persona_avatar),
            opt_string_view(relay_picture),
            command@,
        ),
{
    match persona_avatar {
        Some(p) => p,
        None => match relay_picture {
            Some(r) => r,
            None => match managed_agent_avatar_url(command) {
                Some(u) => u,
                None => String::new(),
            },
        },
    }
}

/// Law: a persona avatar, when there is one, is the result whatever the relay
/// shows and whatever the command; only without one does the relay picture
/// count, and only without both the command's default; otherwise the result
/// is empty.
pub proof fn law_legacy_avatar_precedence(
    persona: Option<Seq<char>>,
    relay_picture: Option<Seq<char>>,
    command: Seq<char>,
)
    ensures
        persona matches Some(p) ==> spec_legacy_avatar(persona, relay_picture, command) == p,
        persona is None && relay_picture is Some ==> spec_legacy_avatar(
            persona,
            relay_picture,
            command,
        ) == relay_picture->0,
        persona is None && relay_picture is None && command_avatar_url(command) is Some
            ==> spec_legacy_avatar(persona, relay_picture, command) == command_avatar_url(
            command,
        )->0,
        persona is None && relay_picture is None && command_avatar_url(command) is None
            ==> spec_legacy_avatar(persona, relay_picture, command).len() == 0,
{
}

/// Law: what the shared-compute setting becomes. No setting stays none on
/// any backend. A setting is kept exactly when its model is not blank and
/// the backend is local, and then it is kept with the model trimmed; a
/// blank model is refused first, on any backend.
pub proof fn law_normalize_relay_mesh_outcomes(model: Option<Seq<char>>, local: bool)
    ensures
        model is None ==> spec_normalize_relay_mesh(model, local) == Ok::<
            Option<Seq<char>>,
            Seq<char>,
        >(None),
        model matches Some(m) ==> (spec_normalize_relay_mesh(model, local) is Ok <==> (local
            && trimmed(m).len() > 0)),
        model matches Some(m) ==> (spec_normalize_relay_mesh(model, local) matches Ok(Some(n))
            ==> n == trimmed(m) && n.len() > 0),
        model matches Some(m) ==> (trimmed(m).len() == 0 ==> spec_normalize_relay_mesh(
            model,
            local,
        ) == Err::<Option<Seq<char>>, Seq<char>>("Buzz shared compute model is required"@)),
        model matches Some(m) ==> (trimmed(m).len() > 0 && !local ==> spec_normalize_relay_mesh(
            model,
            local,
        ) == Err::<Option<Seq<char>>, Seq<char>>(
            "Buzz shared compute agents must use the local backend"@,
        )),
{
}

/// Law: the avatar of a new agent. A non-blank explicit input wins, trimmed,
/// whatever the persona and the command; without one a non-blank persona
/// avatar, trimmed; without both the command's default.
pub proof fn law_created_avatar_precedence(
    input: Option<Seq<char>>,
    persona: Option<Seq<char>>,
    command: Seq<char>,
)
    ensures
        input is Some && trimmed(input->0).len() > 0 ==> spec_created_avatar_url(
            input,
            persona,
            command,
        ) == Some(trimmed(input->0)),
        non_blank(input) is None && persona is Some && trimmed(persona->0).len() > 0
            ==> spec_created_avatar_url(input, persona, command) == Some(trimmed(persona->0)),
        non_blank(input) is None && non_blank(persona) is None ==> spec_created_avatar_url(
            input,
            persona,
            command,
        ) == command_avatar_url(command),
{
}

} // verus!
