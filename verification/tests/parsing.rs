use power_profiles_switcher::login1_user::State;
use power_profiles_switcher::power_profiles::Profile;

#[test]
fn profile_wire_names() {
    assert_eq!(Profile::PowerSaver.as_str(), "power-saver");
    assert_eq!(Profile::Balanced.as_str(), "balanced");
    assert_eq!(Profile::Performance.as_str(), "performance");
}

#[test]
fn profile_from_str_parses_each_name() {
    assert_eq!(Profile::from_str("power-saver"), Some(Profile::PowerSaver));
    assert_eq!(Profile::from_str("balanced"), Some(Profile::Balanced));
    assert_eq!(Profile::from_str("performance"), Some(Profile::Performance));
}

#[test]
fn profile_from_str_rejects_other_strings() {
    assert_eq!(Profile::from_str(""), None);
    assert_eq!(Profile::from_str("Performance"), None);
    assert_eq!(Profile::from_str("power_saver"), None);
}

#[test]
fn profile_names_round_trip() {
    for p in [Profile::PowerSaver, Profile::Balanced, Profile::Performance] {
        assert_eq!(Profile::from_str(p.as_str()), Some(p));
    }
}

#[test]
fn state_from_str_parses_each_name() {
    assert!(matches!(State::from_str("offline"), Some(State::Offline)));
    assert!(matches!(State::from_str("lingering"), Some(State::Lingering)));
    assert!(matches!(State::from_str("online"), Some(State::Online)));
    assert!(matches!(State::from_str("active"), Some(State::Active)));
}

#[test]
fn state_closing_collapses_to_lingering() {
    // The deliberate alias: "closing" is reported as Lingering, and the
    // Closing variant is never produced by parsing.
    assert!(matches!(State::from_str("closing"), Some(State::Lingering)));
}

#[test]
fn state_from_str_rejects_other_strings() {
    assert!(State::from_str("").is_none());
    assert!(State::from_str("Active").is_none());
    assert!(State::from_str("away").is_none());
}
