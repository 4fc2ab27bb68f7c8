use power_profiles_switcher::sensors::{
    find, ChipInfo, FeatureInfo, FindError, Matcher, SubFeatureInfo,
};

fn sub(name: &str) -> SubFeatureInfo {
    SubFeatureInfo { name: Some(name.to_string()) }
}

fn feat(name: &str, label: Option<&str>, subs: Vec<SubFeatureInfo>) -> FeatureInfo {
    FeatureInfo {
        name: Some(name.to_string()),
        label: label.map(|l| l.to_string()),
        sub_features: subs,
    }
}

fn chip(name: &str, features: Vec<FeatureInfo>) -> ChipInfo {
    ChipInfo { name: Some(name.to_string()), features }
}

fn package_matcher() -> Matcher {
    Matcher {
        chip_name: "coretemp-isa-0000".to_string(),
        feat_name: "temp1".to_string(),
        feat_label: Some("Package id 0".to_string()),
        sub_feat_name: "temp1_input".to_string(),
    }
}

#[test]
fn finds_the_described_sub_feature() {
    let chips = vec![
        chip("acpitz-acpi-0", vec![feat("temp1", Some("acpi"), vec![sub("temp1_input")])]),
        chip(
            "coretemp-isa-0000",
            vec![
                feat("temp2", Some("Core 0"), vec![sub("temp2_input")]),
                feat(
                    "temp1",
                    Some("Package id 0"),
                    vec![sub("temp1_max"), sub("temp1_input")],
                ),
            ],
        ),
    ];
    assert_eq!(find(&chips, &package_matcher()), Ok(Some((1, 1, 1))));
}

#[test]
fn no_match_is_not_an_error() {
    let chips = vec![chip("acpitz-acpi-0", vec![feat("temp1", None, vec![sub("temp1_input")])])];
    assert_eq!(find(&chips, &package_matcher()), Ok(None));
}

#[test]
fn unnamed_features_and_sub_features_are_skipped() {
    let chips = vec![chip(
        "coretemp-isa-0000",
        vec![
            FeatureInfo { name: None, label: None, sub_features: vec![sub("temp1_input")] },
            FeatureInfo {
                name: Some("temp1".to_string()),
                label: Some("Package id 0".to_string()),
                sub_features: vec![
                    SubFeatureInfo { name: None },
                    sub("temp1_input"),
                ],
            },
        ],
    )];
    assert_eq!(find(&chips, &package_matcher()), Ok(Some((0, 1, 1))));
}

#[test]
fn label_mismatch_skips_the_feature() {
    let chips = vec![chip(
        "coretemp-isa-0000",
        vec![
            feat("temp1", Some("Core 0"), vec![sub("temp1_input")]),
            feat("temp1", Some("Package id 0"), vec![sub("temp1_input")]),
        ],
    )];
    assert_eq!(find(&chips, &package_matcher()), Ok(Some((0, 1, 0))));
}

#[test]
fn matcher_without_label_ignores_labels() {
    let mut matcher = package_matcher();
    matcher.feat_label = None;
    let chips = vec![chip(
        "coretemp-isa-0000",
        vec![feat("temp1", Some("Core 0"), vec![sub("temp1_input")])],
    )];
    assert_eq!(find(&chips, &matcher), Ok(Some((0, 0, 0))));
}

#[test]
fn unreadable_label_is_an_error_when_the_matcher_asks_for_one() {
    let chips = vec![chip(
        "coretemp-isa-0000",
        vec![
            feat("temp2", None, vec![sub("temp2_input")]),
            feat("temp1", None, vec![sub("temp1_input")]),
        ],
    )];
    assert_eq!(
        find(&chips, &package_matcher()),
        Err(FindError::LabelUnreadable { chip: 0, feature: 1 })
    );
}

#[test]
fn unreadable_chip_name_aborts_a_scan_that_reaches_it() {
    let chips = vec![
        ChipInfo { name: None, features: vec![] },
        chip(
            "coretemp-isa-0000",
            vec![feat("temp1", Some("Package id 0"), vec![sub("temp1_input")])],
        ),
    ];
    assert_eq!(find(&chips, &package_matcher()), Err(FindError::ChipNameUnreadable { chip: 0 }));
}

#[test]
fn unreadable_chip_after_the_match_is_never_consulted() {
    let chips = vec![
        chip(
            "coretemp-isa-0000",
            vec![feat("temp1", Some("Package id 0"), vec![sub("temp1_input")])],
        ),
        ChipInfo { name: None, features: vec![] },
    ];
    assert_eq!(find(&chips, &package_matcher()), Ok(Some((0, 0, 0))));
}

#[test]
fn first_match_wins() {
    let matching = chip(
        "coretemp-isa-0000",
        vec![feat("temp1", Some("Package id 0"), vec![sub("temp1_input")])],
    );
    let chips = vec![matching.clone(), matching];
    assert_eq!(find(&chips, &package_matcher()), Ok(Some((0, 0, 0))));
}

#[test]
fn empty_listing_finds_nothing() {
    assert_eq!(find(&vec![], &package_matcher()), Ok(None));
}
