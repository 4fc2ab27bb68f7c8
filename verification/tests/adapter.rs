use power_profiles_switcher::controller::{ControlState, ProfileCall};
use power_profiles_switcher::power_profiles::{
    request_for, strategy_of, Profile, ServiceRequest, Strategy,
};

#[test]
fn strategy_of_picks_what_the_configuration_names() {
    assert_eq!(
        strategy_of(Some(Profile::Performance), None, None),
        Some(Strategy::HoldRelease { profile: Profile::Performance })
    );
    assert_eq!(
        strategy_of(None, Some(Profile::Balanced), Some(Profile::Performance)),
        Some(Strategy::DirectSet {
            inactive: Profile::Balanced,
            active: Profile::Performance,
        })
    );
}

#[test]
fn strategy_of_rejects_ambiguous_or_incomplete_configurations() {
    assert_eq!(strategy_of(None, None, None), None);
    assert_eq!(strategy_of(None, Some(Profile::Balanced), None), None);
    assert_eq!(strategy_of(None, None, Some(Profile::Performance)), None);
    assert_eq!(
        strategy_of(
            Some(Profile::Performance),
            Some(Profile::Balanced),
            Some(Profile::Performance)
        ),
        None
    );
}

#[test]
fn direct_set_uses_the_configured_profiles() {
    let strategy = Strategy::DirectSet {
        inactive: Profile::Balanced,
        active: Profile::Performance,
    };
    assert_eq!(
        request_for(&strategy, &ProfileCall::Activate, &ControlState::Armed { deadline: 0 }),
        Some(ServiceRequest::SetProfile(Profile::Performance))
    );
    assert_eq!(
        request_for(
            &strategy,
            &ProfileCall::Deactivate,
            &ControlState::Active { cookie: None }
        ),
        Some(ServiceRequest::SetProfile(Profile::Balanced))
    );
}

#[test]
fn hold_release_holds_and_releases_the_cookie() {
    let strategy = Strategy::HoldRelease { profile: Profile::Performance };
    assert_eq!(
        request_for(&strategy, &ProfileCall::Activate, &ControlState::Armed { deadline: 0 }),
        Some(ServiceRequest::Hold(Profile::Performance))
    );
    assert_eq!(
        request_for(
            &strategy,
            &ProfileCall::Deactivate,
            &ControlState::Active { cookie: Some(42) }
        ),
        Some(ServiceRequest::Release(42))
    );
}

#[test]
fn release_without_cookie_is_no_request() {
    let strategy = Strategy::HoldRelease { profile: Profile::Performance };
    assert_eq!(
        request_for(
            &strategy,
            &ProfileCall::Deactivate,
            &ControlState::Active { cookie: None }
        ),
        None
    );
}
