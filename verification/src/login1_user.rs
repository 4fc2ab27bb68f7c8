//! The session states reported by the login service for the owning user,
//! and their string encoding on the wire.

use vstd::prelude::*;

verus! {

/// State of the owning user's session, as the login service reports it.
#[derive(Debug, Copy, Clone, PartialEq, Eq, Structural, Hash)]
pub enum State {
    Offline,
    Lingering,
    Online,
    Active,
    Closing,
}

/// Which session state, if any, a wire string denotes.
///
/// "closing" is deliberately collapsed to `Lingering` rather than `Closing`,
/// mirroring the service's observed replies; whether that alias is a
/// compatibility shim or an upstream inconsistency is an open question, so it
/// is preserved here rather than cleaned up.
pub open spec fn spec_parse_state(s: Seq<char>) -> Option<State> {
    if s == "offline"@ {
        Some(State::Offline)
    } else if s == "lingering"@ {
        Some(State::Lingering)
    } else if s == "online"@ {
        Some(State::Online)
    } else if s == "active"@ {
        Some(State::Active)
    } else if s == "closing"@ {
        Some(State::Lingering)
    } else {
        None
    }
}

impl State {
    /// Parses a wire name back into a session state; any other string is
    /// rejected.
    pub fn from_str(s: &str) -> (r: Option<State>)
        ensures
            r == spec_parse_state(s@),
    {
        let owned = s.to_owned();
        if owned == "offline".to_owned() {
            Some(Self::Offline)
        } else if owned == "lingering".to_owned() {
            Some(Self::Lingering)
        } else if owned == "online".to_owned() {
            Some(Self::Online)
        } else if owned == "active".to_owned() {
            Some(Self::Active)
        } else if owned == "closing".to_owned() {
            Some(Self::Lingering)
        } else {
            None
        }
    }
}

} // verus!
