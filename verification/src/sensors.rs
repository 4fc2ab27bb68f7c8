//! Selecting the hardware-monitoring sub-feature to read.
//!
//! The sensor library exposes a hierarchy of chips, each with features, each
//! with sub-features; a sub-feature is the smallest addressable reading. The
//! caller lists that hierarchy as plain values ([`ChipInfo`]) and [`find`]
//! picks the first sub-feature a [`Matcher`] describes, scanning in listing
//! order exactly as far as needed: an unreadable name on the way is an error
//! only if the scan actually consults it before a match is found.

use vstd::prelude::*;

verus! {

/// Identifies which sensor sub-feature to read: a chip name, a feature name,
/// an optional feature label, and a sub-feature name.
#[derive(Debug, Clone)]
pub struct Matcher {
    pub chip_name: String,
    pub feat_name: String,
    pub feat_label: Option<String>,
    pub sub_feat_name: String,
}

/// One sub-feature of a feature. `name` is `None` when the sensor library
/// could not produce a name; such entries are skipped.
#[derive(Debug, Clone)]
pub struct SubFeatureInfo {
    pub name: Option<String>,
}

/// One feature of a chip. `name` is `None` when the sensor library could not
/// produce a name (the feature is skipped); `label` is `None` when it has no
/// readable label (an error if the matcher asks for one).
#[derive(Debug, Clone)]
pub struct FeatureInfo {
    pub name: Option<String>,
    pub label: Option<String>,
    pub sub_features: Vec<SubFeatureInfo>,
}

/// One chip. `name` is `None` when the sensor library could not produce a
/// name, which aborts a scan that reaches the chip.
#[derive(Debug, Clone)]
pub struct ChipInfo {
    pub name: Option<String>,
    pub features: Vec<FeatureInfo>,
}

/// Why a scan aborted instead of answering.
#[derive(Debug, Copy, Clone, PartialEq, Eq, Structural)]
pub enum FindError {
    /// The chip at this index has no readable name.
    ChipNameUnreadable { chip: usize },
    /// The matcher asks for a feature label, and this feature — whose name
    /// matched — has no readable one.
    LabelUnreadable { chip: usize, feature: usize },
}

/// Whether a sub-feature has a name and it is the one the matcher asks for.
pub open spec fn sub_matches(sf: SubFeatureInfo, m: Matcher) -> bool {
    match sf.name {
        Some(n) => n@ == m.sub_feat_name@,
        None => false,
    }
}

/// The first sub-feature at index `k` or later that the matcher names.
pub open spec fn spec_find_sub(subs: Seq<SubFeatureInfo>, m: Matcher, k: int) -> Option<usize>
    decreases subs.len() - k,
{
    if k < 0 || k >= subs.len() {
        None
    } else if sub_matches(subs[k], m) {
        Some(k as usize)
    } else {
        spec_find_sub(subs, m, k + 1)
    }
}

/// Whether a feature has a name and it is the one the matcher asks for.
pub open spec fn feat_name_matches(f: FeatureInfo, m: Matcher) -> bool {
    match f.name {
        Some(n) => n@ == m.feat_name@,
        None => false,
    }
}

/// Scans features from index `j` on: the first feature whose name matches,
/// whose label satisfies the matcher, and which holds a matching
/// sub-feature, gives `Ok(Some((feature, sub_feature)))`. A name-matching
/// feature without a readable label, when the matcher asks for one, gives
/// `Err(feature)`; a label mismatch or a fruitless sub-feature scan moves on
/// to the next feature.
pub open spec fn spec_find_in_feats(feats: Seq<FeatureInfo>, m: Matcher, j: int) -> Result<
    Option<(usize, usize)>,
    usize,
>
    decreases feats.len() - j,
{
    if j < 0 || j >= feats.len() {
        Ok(None)
    } else {
        let f = feats[j];
        if !feat_name_matches(f, m) {
            spec_find_in_feats(feats, m, j + 1)
        } else {
            match m.feat_label {
                Some(want) => {
                    match f.label {
                        None => Err(j as usize),
                        Some(have) => {
                            if have@ != want@ {
                                spec_find_in_feats(feats, m, j + 1)
                            } else {
                                match spec_find_sub(f.sub_features@, m, 0) {
                                    Some(k) => Ok(Some((j as usize, k))),
                                    None => spec_find_in_feats(feats, m, j + 1),
                                }
                            }
                        },
                    }
                },
                None => {
                    match spec_find_sub(f.sub_features@, m, 0) {
                        Some(k) => Ok(Some((j as usize, k))),
                        None => spec_find_in_feats(feats, m, j + 1),
                    }
                },
            }
        }
    }
}

/// Scans chips from index `i` on: the first chip whose name matches and
/// which holds a matching feature and sub-feature gives their three indices;
/// a chip reached before that whose name is unreadable aborts the scan, as
/// does an unreadable label the matcher needed to consult.
pub open spec fn spec_find(chips: Seq<ChipInfo>, m: Matcher, i: int) -> Result<
    Option<(usize, usize, usize)>,
    FindError,
>
    decreases chips.len() - i,
{
    if i < 0 || i >= chips.len() {
        Ok(None)
    } else {
        let c = chips[i];
        match c.name {
            None => Err(FindError::ChipNameUnreadable { chip: i as usize }),
            Some(n) => {
                if n@ != m.chip_name@ {
                    spec_find(chips, m, i + 1)
                } else {
                    match spec_find_in_feats(c.features@, m, 0) {
                        Err(j) => Err(
                            FindError::LabelUnreadable { chip: i as usize, feature: j },
                        ),
                        Ok(Some((j, k))) => Ok(Some((i as usize, j, k))),
                        Ok(None) => spec_find(chips, m, i + 1),
                    }
                }
            },
        }
    }
}

/// The first sub-feature of `subs` that the matcher names.
fn find_sub(subs: &Vec<SubFeatureInfo>, m: &Matcher) -> (r: Option<usize>)
    ensures
        r == spec_find_sub(subs@, *m, 0),
{
    let mut k: usize = 0;
    while k < subs.len()
        invariant
            k <= subs@.len(),
            spec_find_sub(subs@, *m, 0) == spec_find_sub(subs@, *m, k as int),
        decreases subs@.len() - k,
    {
        let matched = match &subs[k].name {
            Some(n) => n.clone() == m.sub_feat_name.clone(),
            None => false,
        };
        if matched {
            return Some(k);
        }
        k += 1;
    }
    None
}

/// The first feature of `feats` that the matcher describes, with its
/// matching sub-feature.
fn find_in_feats(feats: &Vec<FeatureInfo>, m: &Matcher) -> (r: Result<
    Option<(usize, usize)>,
    usize,
>)
    ensures
        r == spec_find_in_feats(feats@, *m, 0),
{
    let mut j: usize = 0;
    while j < feats.len()
        invariant
            j <= feats@.len(),
            spec_find_in_feats(feats@, *m, 0) == spec_find_in_feats(feats@, *m, j as int),
        decreases feats@.len() - j,
    {
        let f = &feats[j];
        let name_matched = match &f.name {
            Some(n) => n.clone() == m.feat_name.clone(),
            None => false,
        };
        if name_matched {
            let label_ok = match &m.feat_label {
                Some(want) => {
                    match &f.label {
                        None => {
                            return Err(j);
                        },
                        Some(have) => have.clone() == want.clone(),
                    }
                },
                None => true,
            };
            if label_ok {
                match find_sub(&f.sub_features, m) {
                    Some(k) => {
                        return Ok(Some((j, k)));
                    },
                    None => {},
                }
            }
        }
        j += 1;
    }
    Ok(None)
}

/// Finds the sub-feature the matcher describes, scanning the listed chips in
/// order.
///
/// Returns the chip, feature, and sub-feature indices of the first match;
/// `Ok(None)` when the whole listing holds none; or the error the scan ran
/// into first — an unreadable chip name on the way, or an unreadable label
/// on a feature whose name matched while the matcher asks for a label.
pub fn find(chips: &Vec<ChipInfo>, matcher: &Matcher) -> (r: Result<
    Option<(usize, usize, usize)>,
    FindError,
>)
    ensures
        r == spec_find(chips@, *matcher, 0),
{
    let mut i: usize = 0;
    while i < chips.len()
        invariant
            i <= chips@.len(),
            spec_find(chips@, *matcher, 0) == spec_find(chips@, *matcher, i as int),
        decreases chips@.len() - i,
    {
        let c = &chips[i];
        match &c.name {
            None => {
                return Err(FindError::ChipNameUnreadable { chip: i });
            },
            Some(n) => {
                if n.clone() == matcher.chip_name.clone() {
                    match find_in_feats(&c.features, matcher) {
                        Err(j) => {
                            return Err(FindError::LabelUnreadable { chip: i, feature: j });
                        },
                        Ok(Some((j, k))) => {
                            return Ok(Some((i, j, k)));
                        },
                        Ok(None) => {},
                    }
                }
            },
        }
        i += 1;
    }
    Ok(None)
}

} // verus!
