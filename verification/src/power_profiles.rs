//! The power-profile identifiers understood by the profile-control service,
//! their string encoding on the wire, and the two interchangeable strategies
//! for asking the service to elevate or restore the profile.

use crate::controller::ControlState;
use crate::controller::ProfileCall;
use vstd::prelude::*;

verus! {

/// A named system-wide performance/power operating mode.
#[derive(Debug, Copy, Clone, PartialEq, Eq, Structural)]
pub enum Profile {
    PowerSaver,
    Balanced,
    Performance,
}

/// The wire name of a profile, as the profile-control service spells it.
pub open spec fn profile_name(p: Profile) -> Seq<char> {
    match p {
        Profile::PowerSaver => "power-saver"@,
        Profile::Balanced => "balanced"@,
        Profile::Performance => "performance"@,
    }
}

/// Which profile, if any, a wire string denotes.
pub open spec fn spec_parse_profile(s: Seq<char>) -> Option<Profile> {
    if s == "power-saver"@ {
        Some(Profile::PowerSaver)
    } else if s == "balanced"@ {
        Some(Profile::Balanced)
    } else if s == "performance"@ {
        Some(Profile::Performance)
    } else {
        None
    }
}

impl Profile {
    /// The profile's wire name.
    pub fn as_str(&self) -> (r: &str)
        ensures
            r@ == profile_name(*self),
    {
        match self {
            Self::PowerSaver => "power-saver",
            Self::Balanced => "balanced",
            Self::Performance => "performance",
        }
    }

    /// Parses a wire name back into a profile; any other string is rejected.
    pub fn from_str(s: &str) -> (r: Option<Profile>)
        ensures
            r == spec_parse_profile(s@),
    {
        let owned = s.to_owned();
        if owned == "power-saver".to_owned() {
            Some(Self::PowerSaver)
        } else if owned == "balanced".to_owned() {
            Some(Self::Balanced)
        } else if owned == "performance".to_owned() {
            Some(Self::Performance)
        } else {
            None
        }
    }
}

/// How the controller talks to the profile-control service, chosen once at
/// configuration time.
#[derive(Debug, Copy, Clone, PartialEq, Eq)]
pub enum Strategy {
    /// Set the active profile directly: one identifier while elevated, one
    /// while not.
    DirectSet { inactive: Profile, active: Profile },
    /// Ask the service to hold the elevated profile under a reference count
    /// and release the hold to restore whatever was active before.
    HoldRelease { profile: Profile },
}

/// The strategy a configuration names: hold/release when it gives the one
/// profile to hold, direct-set when it gives the baseline and elevated
/// pair, and nothing when it gives any other combination.
pub open spec fn spec_strategy_of(
    profile_name: Option<Profile>,
    inactive_profile: Option<Profile>,
    active_profile: Option<Profile>,
) -> Option<Strategy> {
    match (profile_name, inactive_profile, active_profile) {
        (Some(profile), None, None) => Some(Strategy::HoldRelease { profile }),
        (None, Some(inactive), Some(active)) => Some(Strategy::DirectSet { inactive, active }),
        _ => None,
    }
}

/// Picks the strategy a configuration names, rejecting an ambiguous or
/// incomplete one.
pub fn strategy_of(
    profile_name: Option<Profile>,
    inactive_profile: Option<Profile>,
    active_profile: Option<Profile>,
) -> (r: Option<Strategy>)
    ensures
        r == spec_strategy_of(profile_name, inactive_profile, active_profile),
{
    match (profile_name, inactive_profile, active_profile) {
        (Some(profile), None, None) => Some(Strategy::HoldRelease { profile }),
        (None, Some(inactive), Some(active)) => Some(Strategy::DirectSet { inactive, active }),
        _ => None,
    }
}

/// One concrete request to the profile-control service.
#[derive(Debug, Copy, Clone, PartialEq, Eq)]
pub enum ServiceRequest {
    /// Set the active profile to this identifier.
    SetProfile(Profile),
    /// Hold this profile; the service answers with a reference-count cookie.
    Hold(Profile),
    /// Release the hold behind this cookie.
    Release(u32),
}

/// The concrete request a planned call stands for under a strategy.
///
/// Deactivating under hold/release means releasing the cookie stored in the
/// `Active` state; when that state carries none (it was not entered through
/// a successful hold), there is nothing to release and no request is made.
pub open spec fn spec_request(
    strategy: Strategy,
    call: ProfileCall,
    s: ControlState,
) -> Option<ServiceRequest> {
    match (strategy, call) {
        (Strategy::DirectSet { inactive: _, active }, ProfileCall::Activate) => Some(
            ServiceRequest::SetProfile(active),
        ),
        (Strategy::DirectSet { inactive, active: _ }, ProfileCall::Deactivate) => Some(
            ServiceRequest::SetProfile(inactive),
        ),
        (Strategy::HoldRelease { profile }, ProfileCall::Activate) => Some(
            ServiceRequest::Hold(profile),
        ),
        (Strategy::HoldRelease { profile: _ }, ProfileCall::Deactivate) => {
            match s {
                ControlState::Active { cookie: Some(c) } => Some(ServiceRequest::Release(c)),
                _ => None,
            }
        },
    }
}

/// Translates a planned call into the concrete service request, given the
/// state the call was planned from.
pub fn request_for(strategy: &Strategy, call: &ProfileCall, s: &ControlState) -> (r: Option<
    ServiceRequest,
>)
    ensures
        r == spec_request(*strategy, *call, *s),
{
    match (strategy, call) {
        (Strategy::DirectSet { inactive: _, active }, ProfileCall::Activate) => Some(
            ServiceRequest::SetProfile(*active),
        ),
        (Strategy::DirectSet { inactive, active: _ }, ProfileCall::Deactivate) => Some(
            ServiceRequest::SetProfile(*inactive),
        ),
        (Strategy::HoldRelease { profile }, ProfileCall::Activate) => Some(
            ServiceRequest::Hold(*profile),
        ),
        (Strategy::HoldRelease { profile: _ }, ProfileCall::Deactivate) => {
            match s {
                ControlState::Active { cookie: Some(c) } => Some(ServiceRequest::Release(*c)),
                _ => None,
            }
        },
    }
}

} // verus!
