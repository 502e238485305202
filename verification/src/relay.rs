//! What the relay publishes of an agent's profile.
use vstd::prelude::*;

use crate::text::{opt_owned, opt_str_view, opt_string_view};

verus! {

/// The display name and picture of an agent's published profile.
#[derive(Debug)]
pub struct AgentProfileInfo {
    pub display_name: Option<String>,
    pub picture: Option<String>,
}

/// A profile with the given name and picture.
pub fn profile(name: Option<&str>, picture: Option<&str>) -> (r: AgentProfileInfo)
    ensures
        opt_string_view(r.display_name) == opt_str_view(name),
        opt_string_view(r.picture) == opt_str_view(picture),
{
    AgentProfileInfo { display_name: opt_owned(name), picture: opt_owned(picture) }
}

} // verus!
