//! The hysteresis controller: the state machine that turns periodic
//! temperature samples and external-state snapshots into debounced
//! profile-change decisions, and the policy that decides what a failed
//! profile-service call means for the loop.
//!
//! The control loop around this module is expected to do, on every tick:
//! sample the sensor and the external services, call [`plan_tick`], perform
//! the planned profile-service call (if any), then call [`conclude_tick`]
//! with the call's outcome to learn the committed next state — or that the
//! loop must exit or abort.

use crate::login1_user::State;
use vstd::prelude::*;

verus! {

/// The single piece of mutable state of the control loop.
#[derive(Debug, Copy, Clone, PartialEq, Eq)]
pub enum ControlState {
    /// Temperature below threshold, profile not elevated.
    Inactive,
    /// Temperature crossed the threshold at some instant; `deadline` is that
    /// instant plus the debounce duration. No profile change has been
    /// applied yet for this crossing.
    Armed { deadline: u64 },
    /// Profile currently elevated; `cookie` carries the reference-count
    /// handle when the hold/release strategy is in use.
    Active { cookie: Option<u32> },
}

/// The immutable tuning of the controller: the temperature above which the
/// system counts as hot, and how long a crossing must persist before a
/// transition commits. Temperatures are in sensor-native units; times are in
/// whatever unit the loop's clock uses, counted from an arbitrary origin.
#[derive(Debug, Copy, Clone, PartialEq, Eq)]
pub struct ControllerConfig {
    /// A reading strictly above this value counts as hot; a reading exactly
    /// equal to it does not.
    pub threshold: i64,
    /// How long a crossing must persist before a transition commits.
    pub debounce: u64,
}

/// Everything the controller looks at on one tick.
#[derive(Debug, Copy, Clone, PartialEq, Eq)]
pub struct TickInput {
    /// The shutdown signal has been raised, or the sensor has become
    /// unreadable; either way the loop must wind down. When set, the other
    /// fields are not consulted.
    pub shutdown: bool,
    /// The host currently runs on battery.
    pub on_battery: bool,
    /// The current sensor reading, in the same units as the threshold.
    pub reading: i64,
    /// The current instant, in the same units as the debounce duration.
    pub now: u64,
}

/// The profile-service call a tick asks for, independent of strategy.
#[derive(Debug, Copy, Clone, PartialEq, Eq)]
pub enum ProfileCall {
    /// Elevate the profile.
    Activate,
    /// Restore the baseline profile.
    Deactivate,
}

/// What one tick requires of the loop: at most one profile-service call,
/// whether the loop terminates after this tick, and the state to commit if
/// the call (if any) succeeds.
#[derive(Debug, Copy, Clone, PartialEq, Eq)]
pub struct TickPlan {
    pub call: Option<ProfileCall>,
    pub exit: bool,
    pub next: ControlState,
}

/// Whether a reading counts as hot: strictly above the threshold.
pub open spec fn spec_hot(reading: i64, threshold: i64) -> bool {
    reading > threshold
}

/// The transition table, with the external-state overrides evaluated first:
/// shutdown, then battery, then the hysteresis table on `hot` and `now`.
///
/// On shutdown the loop terminates after a best-effort deactivation (issued
/// only when the profile is actually elevated); the recorded next state is
/// `Inactive` since the daemon's view of "elevated" ends with the loop. On
/// battery the state is forced to `Inactive` unconditionally, again
/// deactivating only on the edge out of `Active`. Otherwise: a crossing arms
/// a deadline one debounce past the current instant; an armed state waits
/// out its deadline unchanged; at or past the deadline it commits to
/// `Active` (still hot) or falls back to `Inactive` (the crossing was
/// transient); an elevated state deactivates as soon as a reading is not
/// hot.
pub open spec fn spec_plan(s: ControlState, i: TickInput, cfg: ControllerConfig) -> TickPlan {
    if i.shutdown {
        TickPlan {
            call: if s is Active {
                Some(ProfileCall::Deactivate)
            } else {
                None
            },
            exit: true,
            next: ControlState::Inactive,
        }
    } else if i.on_battery {
        TickPlan {
            call: if s is Active {
                Some(ProfileCall::Deactivate)
            } else {
                None
            },
            exit: false,
            next: ControlState::Inactive,
        }
    } else {
        let hot = spec_hot(i.reading, cfg.threshold);
        match s {
            ControlState::Inactive => TickPlan {
                call: None,
                exit: false,
                next: if hot {
                    ControlState::Armed { deadline: (i.now + cfg.debounce) as u64 }
                } else {
                    ControlState::Inactive
                },
            },
            ControlState::Armed { deadline } => {
                if i.now >= deadline {
                    if hot {
                        TickPlan {
                            call: Some(ProfileCall::Activate),
                            exit: false,
                            next: ControlState::Active { cookie: None },
                        }
                    } else {
                        TickPlan { call: None, exit: false, next: ControlState::Inactive }
                    }
                } else {
                    TickPlan { call: None, exit: false, next: ControlState::Armed { deadline } }
                }
            },
            ControlState::Active { cookie } => {
                if hot {
                    TickPlan { call: None, exit: false, next: ControlState::Active { cookie } }
                } else {
                    TickPlan {
                        call: Some(ProfileCall::Deactivate),
                        exit: false,
                        next: ControlState::Inactive,
                    }
                }
            },
        }
    }
}

/// Runs the transition table for one tick.
pub fn plan_tick(s: &ControlState, i: &TickInput, cfg: &ControllerConfig) -> (p: TickPlan)
    requires
        i.now + cfg.debounce <= u64::MAX,
    ensures
        p == spec_plan(*s, *i, *cfg),
{
    if i.shutdown {
        TickPlan {
            call: match s {
                ControlState::Active { .. } => Some(ProfileCall::Deactivate),
                _ => None,
            },
            exit: true,
            next: ControlState::Inactive,
        }
    } else if i.on_battery {
        TickPlan {
            call: match s {
                ControlState::Active { .. } => Some(ProfileCall::Deactivate),
                _ => None,
            },
            exit: false,
            next: ControlState::Inactive,
        }
    } else {
        let hot = i.reading > cfg.threshold;
        match s {
            ControlState::Inactive => TickPlan {
                call: None,
                exit: false,
                next: if hot {
                    ControlState::Armed { deadline: i.now + cfg.debounce }
                } else {
                    ControlState::Inactive
                },
            },
            ControlState::Armed { deadline } => {
                if i.now >= *deadline {
                    if hot {
                        TickPlan {
                            call: Some(ProfileCall::Activate),
                            exit: false,
                            next: ControlState::Active { cookie: None },
                        }
                    } else {
                        TickPlan { call: None, exit: false, next: ControlState::Inactive }
                    }
                } else {
                    TickPlan { call: None, exit: false, next: ControlState::Armed { deadline: *deadline } }
                }
            },
            ControlState::Active { cookie } => {
                if hot {
                    TickPlan { call: None, exit: false, next: ControlState::Active { cookie: *cookie } }
                } else {
                    TickPlan {
                        call: Some(ProfileCall::Deactivate),
                        exit: false,
                        next: ControlState::Inactive,
                    }
                }
            },
        }
    }
}

/// How the planned profile-service call went.
#[derive(Debug, Copy, Clone, PartialEq, Eq)]
pub enum CallResult {
    /// The call succeeded and returned no handle (a direct profile set, or a
    /// release).
    Done,
    /// A hold succeeded and returned this reference-count cookie.
    Held(u32),
    /// The service reported an error.
    Failed,
}

/// What the loop must do after a tick's call has been performed.
#[derive(Debug, Copy, Clone, PartialEq, Eq)]
pub enum TickResolution {
    /// Commit this state and go on to the next tick.
    Proceed { next: ControlState },
    /// Terminate the loop cleanly.
    Exit,
    /// Terminate the loop with an unrecovered service failure.
    Abort,
}

/// The failure policy applied to a completed tick.
///
/// A terminating tick always exits: its deactivation was best-effort. A
/// failed call is tolerated — the planned state is still committed — exactly
/// when it was a deactivation and the owning session is reported active (an
/// interactively-active user may have already changed the profile, and
/// forcing the matter is undesirable); every other failure aborts the loop.
/// On success the planned state is committed, with the cookie of a
/// successful hold recorded in the `Active` state.
pub open spec fn spec_conclude(
    p: TickPlan,
    result: Option<CallResult>,
    session: Option<State>,
) -> TickResolution {
    if p.exit {
        TickResolution::Exit
    } else {
        match result {
            Some(CallResult::Failed) => {
                if p.call == Some(ProfileCall::Deactivate) && session == Some(State::Active) {
                    TickResolution::Proceed { next: p.next }
                } else {
                    TickResolution::Abort
                }
            },
            Some(CallResult::Held(c)) => {
                if p.call == Some(ProfileCall::Activate) {
                    TickResolution::Proceed { next: ControlState::Active { cookie: Some(c) } }
                } else {
                    TickResolution::Proceed { next: p.next }
                }
            },
            _ => TickResolution::Proceed { next: p.next },
        }
    }
}

/// Applies the failure policy to a completed tick.
///
/// `result` is the outcome of the planned call, present exactly when a call
/// was planned; `session` is the owning session's state, `None` when it was
/// not queried or the query itself failed (a failed session query can only
/// make a failure less tolerated, never more).
pub fn conclude_tick(
    p: &TickPlan,
    result: &Option<CallResult>,
    session: &Option<State>,
) -> (r: TickResolution)
    requires
        p.call is Some <==> result is Some,
    ensures
        r == spec_conclude(*p, *result, *session),
{
    if p.exit {
        TickResolution::Exit
    } else {
        match result {
            Some(CallResult::Failed) => {
                let deactivating = match p.call {
                    Some(ProfileCall::Deactivate) => true,
                    _ => false,
                };
                let session_active = match session {
                    Some(State::Active) => true,
                    _ => false,
                };
                if deactivating && session_active {
                    TickResolution::Proceed { next: p.next }
                } else {
                    TickResolution::Abort
                }
            },
            Some(CallResult::Held(c)) => {
                match p.call {
                    Some(ProfileCall::Activate) => TickResolution::Proceed {
                        next: ControlState::Active { cookie: Some(*c) },
                    },
                    _ => TickResolution::Proceed { next: p.next },
                }
            },
            _ => TickResolution::Proceed { next: p.next },
        }
    }
}

/// State of the controller before tick `j` of a run that starts in `s0`,
/// feeds the controller `inputs` tick by tick, and commits each planned
/// state.
///
/// This models every run of the loop that neither exits nor aborts within
/// the first `j` ticks: on success the committed state is the planned one
/// (up to the cookie a successful hold stores, which no transition reads —
/// see [`lemma_active_cookie_irrelevant`]), and a tolerated failure also
/// commits the planned state.
pub open spec fn state_before(
    s0: ControlState,
    inputs: Seq<TickInput>,
    cfg: ControllerConfig,
    j: int,
) -> ControlState
    decreases j,
{
    if j <= 0 {
        s0
    } else {
        spec_plan(state_before(s0, inputs, cfg, j - 1), inputs[j - 1], cfg).next
    }
}

/// The profile-service call planned on tick `j` of such a run.
pub open spec fn call_at(
    s0: ControlState,
    inputs: Seq<TickInput>,
    cfg: ControllerConfig,
    j: int,
) -> Option<ProfileCall> {
    spec_plan(state_before(s0, inputs, cfg, j), inputs[j], cfg).call
}

/// How many ticks before tick `j` plan the call `c`.
pub open spec fn calls_before(
    s0: ControlState,
    inputs: Seq<TickInput>,
    cfg: ControllerConfig,
    c: ProfileCall,
    j: int,
) -> nat
    decreases j,
{
    if j <= 0 {
        0
    } else {
        calls_before(s0, inputs, cfg, c, j - 1) + (if call_at(s0, inputs, cfg, j - 1) == Some(c) {
            1nat
        } else {
            0nat
        })
    }
}

/// LAW: the cookie carried by an `Active` state never influences a tick:
/// the planned call, the exit flag, and the shape of the planned next state
/// are the same whatever the cookie holds. (The cookie exists only to be
/// handed back to the profile service on release.) This is what lets the
/// run model above, which commits planned states as they are, speak for
/// hold/release runs too.
pub proof fn lemma_active_cookie_irrelevant(
    a: Option<u32>,
    b: Option<u32>,
    i: TickInput,
    cfg: ControllerConfig,
)
    ensures
        spec_plan(ControlState::Active { cookie: a }, i, cfg).call == spec_plan(
            ControlState::Active { cookie: b },
            i,
            cfg,
        ).call,
        spec_plan(ControlState::Active { cookie: a }, i, cfg).exit == spec_plan(
            ControlState::Active { cookie: b },
            i,
            cfg,
        ).exit,
        spec_plan(ControlState::Active { cookie: a }, i, cfg).next is Active <==> spec_plan(
            ControlState::Active { cookie: b },
            i,
            cfg,
        ).next is Active,
        spec_plan(ControlState::Active { cookie: a }, i, cfg).next is Inactive <==> spec_plan(
            ControlState::Active { cookie: b },
            i,
            cfg,
        ).next is Inactive,
{
}

/// LAW: transitions respect the table — in particular, one tick out of
/// `Inactive` never lands in `Active`, so the `Armed` debounce step cannot
/// be skipped; and an activation is only ever planned out of an `Armed`
/// state whose deadline has passed, on a hot reading, on mains power, with
/// no shutdown pending.
pub proof fn lemma_no_skipped_debounce(s: ControlState, i: TickInput, cfg: ControllerConfig)
    ensures
        !(spec_plan(ControlState::Inactive, i, cfg).next is Active),
        spec_plan(s, i, cfg).call == Some(ProfileCall::Activate) ==> {
            &&& !i.shutdown
            &&& !i.on_battery
            &&& spec_hot(i.reading, cfg.threshold)
            &&& s matches ControlState::Armed { deadline } && i.now >= deadline
        },
{
}

/// LAW: a profile-service call is planned only on a transition edge of the
/// elevated view, never repeatedly while the state is stable: an activation
/// exactly takes a non-elevated state into `Active`, a deactivation exactly
/// takes `Active` out of it, and a tick that plans no call and does not
/// terminate leaves the elevated view as it was.
pub proof fn lemma_calls_only_on_edges(s: ControlState, i: TickInput, cfg: ControllerConfig)
    ensures
        spec_plan(s, i, cfg).call == Some(ProfileCall::Activate) ==> !(s is Active) && spec_plan(
            s,
            i,
            cfg,
        ).next is Active,
        spec_plan(s, i, cfg).call == Some(ProfileCall::Deactivate) ==> s is Active && !(spec_plan(
            s,
            i,
            cfg,
        ).next is Active),
        spec_plan(s, i, cfg).call is None && !spec_plan(s, i, cfg).exit ==> (s is Active
            <==> spec_plan(s, i, cfg).next is Active),
{
}

/// Characterizes a run from `Inactive` whose every tick is hot, on mains
/// power, with no shutdown: with `d` the deadline armed by the first tick,
/// the controller sits in `Armed { d }` as long as no later tick has
/// reached `d`, and in `Active` from the first tick that has — which is
/// also the one tick that plans the activation. No tick ever plans a
/// deactivation.
proof fn lemma_hot_run_characterized(
    s0: ControlState,
    inputs: Seq<TickInput>,
    cfg: ControllerConfig,
    j: int,
)
    requires
        s0 is Inactive,
        1 <= j <= inputs.len(),
        forall|t: int|
            0 <= t < inputs.len() ==> {
                &&& !(#[trigger] inputs[t]).shutdown
                &&& !inputs[t].on_battery
                &&& spec_hot(inputs[t].reading, cfg.threshold)
            },
        inputs[0].now + cfg.debounce <= u64::MAX,
    ensures
        ({
            let d = (inputs[0].now + cfg.debounce) as u64;
            &&& if forall|t: int| 1 <= t < j ==> (#[trigger] inputs[t]).now < d {
                &&& state_before(s0, inputs, cfg, j) == (ControlState::Armed { deadline: d })
                &&& calls_before(s0, inputs, cfg, ProfileCall::Activate, j) == 0
            } else {
                &&& state_before(s0, inputs, cfg, j) is Active
                &&& calls_before(s0, inputs, cfg, ProfileCall::Activate, j) == 1
            }
            &&& calls_before(s0, inputs, cfg, ProfileCall::Deactivate, j) == 0
        }),
    decreases j,
{
    let d = (inputs[0].now + cfg.debounce) as u64;
    if j == 1 {
        assert(state_before(s0, inputs, cfg, 0) == s0);
        assert(call_at(s0, inputs, cfg, 0) == None::<ProfileCall>);
        assert(calls_before(s0, inputs, cfg, ProfileCall::Activate, 0) == 0);
        assert(calls_before(s0, inputs, cfg, ProfileCall::Deactivate, 0) == 0);
        assert(calls_before(s0, inputs, cfg, ProfileCall::Activate, 1) == 0);
        assert(calls_before(s0, inputs, cfg, ProfileCall::Deactivate, 1) == 0);
        assert(state_before(s0, inputs, cfg, 1) == (ControlState::Armed { deadline: d }));
    } else {
        lemma_hot_run_characterized(s0, inputs, cfg, j - 1);
        if forall|t: int| 1 <= t < j - 1 ==> (#[trigger] inputs[t]).now < d {
            assert(state_before(s0, inputs, cfg, j - 1) == (ControlState::Armed { deadline: d }));
            if inputs[j - 1].now < d {
                assert(call_at(s0, inputs, cfg, j - 1) == None::<ProfileCall>);
                assert(forall|t: int| 1 <= t < j ==> (#[trigger] inputs[t]).now < d);
            } else {
                assert(call_at(s0, inputs, cfg, j - 1) == Some(ProfileCall::Activate));
                assert(!(forall|t: int| 1 <= t < j ==> (#[trigger] inputs[t]).now < d)) by {
                    assert(1 <= j - 1 < j && inputs[j - 1].now >= d);
                }
            }
        } else {
            assert(state_before(s0, inputs, cfg, j - 1) is Active);
            assert(call_at(s0, inputs, cfg, j - 1) == None::<ProfileCall>);
            assert(!(forall|t: int| 1 <= t < j ==> (#[trigger] inputs[t]).now < d)) by {
                let w = choose|t: int| 1 <= t < j - 1 && !((#[trigger] inputs[t]).now < d);
                assert(1 <= w < j && inputs[w].now >= d);
            }
        }
    }
}

/// LAW: a reading that crosses the threshold and stays hot continuously,
/// on mains power and with no shutdown, elevates the profile exactly once
/// — at the first tick at least one debounce duration past the crossing,
/// never earlier, and never again while it stays hot; and no deactivation
/// is ever planned.
pub proof fn lemma_continuous_hot_activates_once(
    s0: ControlState,
    inputs: Seq<TickInput>,
    cfg: ControllerConfig,
)
    requires
        s0 is Inactive,
        inputs.len() >= 1,
        forall|t: int|
            0 <= t < inputs.len() ==> {
                &&& !(#[trigger] inputs[t]).shutdown
                &&& !inputs[t].on_battery
                &&& spec_hot(inputs[t].reading, cfg.threshold)
            },
        inputs[0].now + cfg.debounce <= u64::MAX,
        exists|t: int|
            1 <= t < inputs.len() && (#[trigger] inputs[t]).now >= inputs[0].now + cfg.debounce,
    ensures
        calls_before(s0, inputs, cfg, ProfileCall::Activate, inputs.len() as int) == 1,
        calls_before(s0, inputs, cfg, ProfileCall::Deactivate, inputs.len() as int) == 0,
        forall|t: int|
            0 <= t < inputs.len() && #[trigger] call_at(s0, inputs, cfg, t) == Some(
                ProfileCall::Activate,
            ) ==> {
                &&& inputs[t].now >= inputs[0].now + cfg.debounce
                &&& forall|u: int| 1 <= u < t ==> (#[trigger] inputs[u]).now < inputs[0].now + cfg.debounce
            },
{
    let d = (inputs[0].now + cfg.debounce) as u64;
    let len = inputs.len() as int;
    lemma_hot_run_characterized(s0, inputs, cfg, len);
    assert(!(forall|t: int| 1 <= t < len ==> (#[trigger] inputs[t]).now < d)) by {
        let w = choose|t: int|
            1 <= t < inputs.len() && (#[trigger] inputs[t]).now >= inputs[0].now + cfg.debounce;
        assert(1 <= w < len && inputs[w].now >= d);
    }
    assert forall|t: int|
        0 <= t < inputs.len() && #[trigger] call_at(s0, inputs, cfg, t) == Some(
            ProfileCall::Activate,
        ) implies {
        &&& inputs[t].now >= inputs[0].now + cfg.debounce
        &&& forall|u: int| 1 <= u < t ==> (#[trigger] inputs[u]).now < inputs[0].now + cfg.debounce
    } by {
        if t == 0 {
            assert(state_before(s0, inputs, cfg, 0) == s0);
            assert(call_at(s0, inputs, cfg, 0) == None::<ProfileCall>);
        } else {
            lemma_hot_run_characterized(s0, inputs, cfg, t);
            if forall|u: int| 1 <= u < t ==> (#[trigger] inputs[u]).now < d {
                assert(state_before(s0, inputs, cfg, t) == (ControlState::Armed { deadline: d }));
                assert(inputs[t].now >= d);
            } else {
                assert(state_before(s0, inputs, cfg, t) is Active);
                assert(call_at(s0, inputs, cfg, t) != Some(ProfileCall::Activate));
            }
        }
    }
}

/// Characterizes a run from `Inactive`, on mains power with no shutdown,
/// whose first tick is hot, where no tick before tick `m` reaches the armed
/// deadline, where tick `m` has reached it with a reading no longer hot,
/// and where every tick from `m` on is cool: the controller sits in
/// `Armed` through tick `m`, in `Inactive` after it, and never plans any
/// profile-service call.
proof fn lemma_transient_run_characterized(
    s0: ControlState,
    inputs: Seq<TickInput>,
    cfg: ControllerConfig,
    m: int,
    j: int,
)
    requires
        s0 is Inactive,
        1 <= m < inputs.len(),
        1 <= j <= inputs.len(),
        forall|t: int|
            0 <= t < inputs.len() ==> !(#[trigger] inputs[t]).shutdown && !inputs[t].on_battery,
        spec_hot(inputs[0].reading, cfg.threshold),
        inputs[0].now + cfg.debounce <= u64::MAX,
        forall|t: int|
            1 <= t < m ==> (#[trigger] inputs[t]).now < inputs[0].now + cfg.debounce,
        inputs[m].now >= inputs[0].now + cfg.debounce,
        forall|t: int|
            m <= t < inputs.len() ==> !spec_hot((#[trigger] inputs[t]).reading, cfg.threshold),
    ensures
        j <= m ==> state_before(s0, inputs, cfg, j) == (ControlState::Armed {
            deadline: (inputs[0].now + cfg.debounce) as u64,
        }),
        j > m ==> state_before(s0, inputs, cfg, j) is Inactive,
        forall|t: int| 0 <= t < j ==> #[trigger] call_at(s0, inputs, cfg, t) == None::<ProfileCall>,
    decreases j,
{
    let d = (inputs[0].now + cfg.debounce) as u64;
    if j == 1 {
        assert(state_before(s0, inputs, cfg, 0) == s0);
        assert(call_at(s0, inputs, cfg, 0) == None::<ProfileCall>);
        assert(state_before(s0, inputs, cfg, 1) == (ControlState::Armed { deadline: d }));
    } else {
        lemma_transient_run_characterized(s0, inputs, cfg, m, j - 1);
        if j - 1 < m {
            assert(state_before(s0, inputs, cfg, j - 1) == (ControlState::Armed { deadline: d }));
            assert(inputs[j - 1].now < d);
            assert(call_at(s0, inputs, cfg, j - 1) == None::<ProfileCall>);
            assert(state_before(s0, inputs, cfg, j) == (ControlState::Armed { deadline: d }));
        } else if j - 1 == m {
            assert(state_before(s0, inputs, cfg, m) == (ControlState::Armed { deadline: d }));
            assert(!spec_hot(inputs[m].reading, cfg.threshold));
            assert(call_at(s0, inputs, cfg, m) == None::<ProfileCall>);
            assert(state_before(s0, inputs, cfg, j) is Inactive);
        } else {
            assert(state_before(s0, inputs, cfg, j - 1) is Inactive);
            assert(!spec_hot(inputs[j - 1].reading, cfg.threshold));
            assert(call_at(s0, inputs, cfg, j - 1) == None::<ProfileCall>);
            assert(state_before(s0, inputs, cfg, j) is Inactive);
        }
    }
}

/// LAW: a reading that crosses the threshold but has dropped back below it
/// by the time the debounce deadline is reached, and stays below it, never
/// causes any profile-service call: the crossing was transient and the
/// armed deadline quietly lapses back to `Inactive`.
pub proof fn lemma_transient_crossing_never_activates(
    s0: ControlState,
    inputs: Seq<TickInput>,
    cfg: ControllerConfig,
    m: int,
)
    requires
        s0 is Inactive,
        1 <= m < inputs.len(),
        forall|t: int|
            0 <= t < inputs.len() ==> !(#[trigger] inputs[t]).shutdown && !inputs[t].on_battery,
        spec_hot(inputs[0].reading, cfg.threshold),
        inputs[0].now + cfg.debounce <= u64::MAX,
        forall|t: int|
            1 <= t < m ==> (#[trigger] inputs[t]).now < inputs[0].now + cfg.debounce,
        inputs[m].now >= inputs[0].now + cfg.debounce,
        forall|t: int|
            m <= t < inputs.len() ==> !spec_hot((#[trigger] inputs[t]).reading, cfg.threshold),
    ensures
        forall|t: int|
            0 <= t < inputs.len() ==> #[trigger] call_at(s0, inputs, cfg, t) == None::<ProfileCall>,
        calls_before(s0, inputs, cfg, ProfileCall::Activate, inputs.len() as int) == 0,
        calls_before(s0, inputs, cfg, ProfileCall::Deactivate, inputs.len() as int) == 0,
{
    lemma_transient_run_characterized(s0, inputs, cfg, m, inputs.len() as int);
    lemma_no_calls_counts_zero(s0, inputs, cfg, ProfileCall::Activate, inputs.len() as int);
    lemma_no_calls_counts_zero(s0, inputs, cfg, ProfileCall::Deactivate, inputs.len() as int);
}

/// A run none of whose ticks plans a call counts zero calls.
proof fn lemma_no_calls_counts_zero(
    s0: ControlState,
    inputs: Seq<TickInput>,
    cfg: ControllerConfig,
    c: ProfileCall,
    j: int,
)
    requires
        forall|t: int| 0 <= t < j ==> #[trigger] call_at(s0, inputs, cfg, t) == None::<ProfileCall>,
    ensures
        calls_before(s0, inputs, cfg, c, j) == 0,
    decreases j,
{
    if j > 0 {
        lemma_no_calls_counts_zero(s0, inputs, cfg, c, j - 1);
    }
}

/// LAW: while on battery (and not shutting down), every tick forces the
/// state to `Inactive`, whatever the reading; the one deactivation is
/// planned on the edge into battery mode — by the first tick if the run
/// begins `Active`, and never again while the battery condition lasts — and
/// no activation is ever planned.
pub proof fn lemma_on_battery_forces_inactive(
    s0: ControlState,
    inputs: Seq<TickInput>,
    cfg: ControllerConfig,
    j: int,
)
    requires
        1 <= j <= inputs.len(),
        forall|t: int|
            0 <= t < inputs.len() ==> (#[trigger] inputs[t]).on_battery && !inputs[t].shutdown,
    ensures
        state_before(s0, inputs, cfg, j) is Inactive,
        call_at(s0, inputs, cfg, 0) == if s0 is Active {
            Some(ProfileCall::Deactivate)
        } else {
            None::<ProfileCall>
        },
        forall|t: int| 1 <= t < j ==> #[trigger] call_at(s0, inputs, cfg, t) == None::<ProfileCall>,
        calls_before(s0, inputs, cfg, ProfileCall::Deactivate, j) == if s0 is Active {
            1nat
        } else {
            0nat
        },
        calls_before(s0, inputs, cfg, ProfileCall::Activate, j) == 0,
    decreases j,
{
    assert(state_before(s0, inputs, cfg, 0) == s0);
    if j == 1 {
        assert(calls_before(s0, inputs, cfg, ProfileCall::Activate, 0) == 0);
        assert(calls_before(s0, inputs, cfg, ProfileCall::Deactivate, 0) == 0);
    } else {
        lemma_on_battery_forces_inactive(s0, inputs, cfg, j - 1);
        assert(state_before(s0, inputs, cfg, j - 1) is Inactive);
        assert(call_at(s0, inputs, cfg, j - 1) == None::<ProfileCall>);
    }
}

/// LAW: a tick with the shutdown signal raised is terminal whatever else
/// holds: it plans exactly one deactivation when the profile is elevated
/// and none otherwise, and the tick resolves to `Exit` whatever the call's
/// outcome — the deactivation is best-effort and its failure does not turn
/// a shutdown into an abort.
pub proof fn lemma_shutdown_is_terminal(s: ControlState, i: TickInput, cfg: ControllerConfig)
    requires
        i.shutdown,
    ensures
        spec_plan(s, i, cfg).exit,
        spec_plan(s, i, cfg).call == if s is Active {
            Some(ProfileCall::Deactivate)
        } else {
            None::<ProfileCall>
        },
        forall|result: Option<CallResult>, session: Option<State>|
            #[trigger] spec_conclude(spec_plan(s, i, cfg), result, session) is Exit,
{
}

/// LAW: when a planned deactivation's service call fails while the owning
/// session is reported active, the tick still resolves to proceeding in
/// `Inactive`: the loop neither aborts nor lets its view of "elevated" get
/// stuck — in particular a failed release of an externally invalidated
/// hold is tolerated. (On a terminating tick the resolution is `Exit`
/// instead, which aborts nothing either.)
pub proof fn lemma_deactivation_failure_tolerated(
    s: ControlState,
    i: TickInput,
    cfg: ControllerConfig,
)
    requires
        !i.shutdown,
        spec_plan(s, i, cfg).call == Some(ProfileCall::Deactivate),
    ensures
        spec_plan(s, i, cfg).next is Inactive,
        spec_conclude(
            spec_plan(s, i, cfg),
            Some(CallResult::Failed),
            Some(State::Active),
        ) == (TickResolution::Proceed { next: ControlState::Inactive }),
{
}

} // verus!
