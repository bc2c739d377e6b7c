use vstd::prelude::*;
use crate::card::SimCard;
use crate::error::{AuthError, DatabaseError, TagError};
use crate::protocol::{identify_spec, identify_user};
use crate::store::CredentialStore;

verus! {

/// How long the actuator line stays energized on a grant, in milliseconds.
pub const PULSE_MILLIS: u64 = 5000;

/// How long the loop cools down before rebuilding the reader connection
/// after a communication fault, in milliseconds.
pub const COOLDOWN_MILLIS: u64 = 60000;

/// States of the operating loop. One tag interaction runs
/// `Idle -> WaitForTag -> Identify -> {Grant | Deny | CommFault} -> Idle`,
/// with `Reinitializing` entered only from `CommFault`.
#[derive(Clone, Copy, PartialEq, Eq, Structural, Debug)]
pub enum LoopState {
    /// Actuator de-energized, nothing in progress.
    Idle,
    /// Blocking on tag detection.
    WaitForTag,
    /// Running verification against the detected tag.
    Identify,
    /// Verification granted; the actuator pulse is running.
    Grant,
    /// Verification denied or hit a data-integrity fault; reported, no
    /// cool-down.
    Deny,
    /// A communication fault was detected; reported before recovery.
    CommFault,
    /// Cooling down and rebuilding the reader connection from scratch.
    Reinitializing,
}

/// Events the loop reacts to. `Tick` drives the transitions that need no
/// outside input (entering the wait, finishing a pulse or a recovery).
#[derive(Clone, Copy, PartialEq, Eq, Structural, Debug)]
pub enum Event {
    Tick,
    /// A tag of the supported family was detected.
    TagDetected,
    /// Something answered that is not a supported card; silently discarded.
    ForeignTag,
    /// Detection itself failed on the channel.
    DetectFault,
    /// Verification resolved the tag to an enrolled user.
    Granted,
    /// Verification denied (unknown tag or secret mismatch).
    Denied,
    /// Verification found a corrupt stored row.
    DataFault,
    /// Verification failed on the channel.
    VerifyCommFault,
}

/// What the surrounding process must do after a transition.
#[derive(Clone, Copy, PartialEq, Eq, Structural, Debug)]
pub enum Action {
    /// Nothing to do.
    Nothing,
    /// Block on tag detection.
    Listen,
    /// Run verification against the detected tag.
    RunVerification,
    /// Energize the actuator line, hold `PULSE_MILLIS`, de-energize.
    Pulse,
    /// Report a denied attempt.
    ReportDeny,
    /// Report a corrupt stored row needing operator intervention.
    ReportIntegrityFault,
    /// Report a communication fault.
    ReportCommFault,
    /// Sleep `COOLDOWN_MILLIS`, then rebuild the reader connection wholesale.
    CoolDownAndReconnect,
}

/// The transition relation of the operating loop: next state for a state and
/// an event. An event that makes no sense in a state leaves the state alone.
pub open spec fn next_state(s: LoopState, e: Event) -> LoopState {
    match (s, e) {
        (LoopState::Idle, Event::Tick) => LoopState::WaitForTag,
        (LoopState::WaitForTag, Event::TagDetected) => LoopState::Identify,
        (LoopState::WaitForTag, Event::ForeignTag) => LoopState::WaitForTag,
        (LoopState::WaitForTag, Event::DetectFault) => LoopState::CommFault,
        (LoopState::Identify, Event::Granted) => LoopState::Grant,
        (LoopState::Identify, Event::Denied) => LoopState::Deny,
        (LoopState::Identify, Event::DataFault) => LoopState::Deny,
        (LoopState::Identify, Event::VerifyCommFault) => LoopState::CommFault,
        (LoopState::Grant, Event::Tick) => LoopState::Idle,
        (LoopState::Deny, Event::Tick) => LoopState::Idle,
        (LoopState::CommFault, Event::Tick) => LoopState::Reinitializing,
        (LoopState::Reinitializing, Event::Tick) => LoopState::Idle,
        _ => s,
    }
}

/// The action each transition asks of the surrounding process.
pub open spec fn next_action(s: LoopState, e: Event) -> Action {
    match (s, e) {
        (LoopState::Idle, Event::Tick) => Action::Listen,
        (LoopState::WaitForTag, Event::TagDetected) => Action::RunVerification,
        (LoopState::WaitForTag, Event::ForeignTag) => Action::Listen,
        (LoopState::WaitForTag, Event::DetectFault) => Action::ReportCommFault,
        (LoopState::Identify, Event::Granted) => Action::Pulse,
        (LoopState::Identify, Event::Denied) => Action::ReportDeny,
        (LoopState::Identify, Event::DataFault) => Action::ReportIntegrityFault,
        (LoopState::Identify, Event::VerifyCommFault) => Action::ReportCommFault,
        (LoopState::CommFault, Event::Tick) => Action::CoolDownAndReconnect,
        _ => Action::Nothing,
    }
}

/// Advances the loop by one event.
pub fn step(s: LoopState, e: Event) -> (r: (LoopState, Action))
    ensures
        r.0 == next_state(s, e),
        r.1 == next_action(s, e),
{
    match (s, e) {
        (LoopState::Idle, Event::Tick) => (LoopState::WaitForTag, Action::Listen),
        (LoopState::WaitForTag, Event::TagDetected) => (
            LoopState::Identify,
            Action::RunVerification,
        ),
        (LoopState::WaitForTag, Event::ForeignTag) => (LoopState::WaitForTag, Action::Listen),
        (LoopState::WaitForTag, Event::DetectFault) => (
            LoopState::CommFault,
            Action::ReportCommFault,
        ),
        (LoopState::Identify, Event::Granted) => (LoopState::Grant, Action::Pulse),
        (LoopState::Identify, Event::Denied) => (LoopState::Deny, Action::ReportDeny),
        (LoopState::Identify, Event::DataFault) => (LoopState::Deny, Action::ReportIntegrityFault),
        (LoopState::Identify, Event::VerifyCommFault) => (
            LoopState::CommFault,
            Action::ReportCommFault,
        ),
        (LoopState::Grant, Event::Tick) => (LoopState::Idle, Action::Nothing),
        (LoopState::Deny, Event::Tick) => (LoopState::Idle, Action::Nothing),
        (LoopState::CommFault, Event::Tick) => (LoopState::Reinitializing,
            Action::CoolDownAndReconnect,
        ),
        (LoopState::Reinitializing, Event::Tick) => (LoopState::Idle, Action::Nothing),
        (s2, _) => (s2, Action::Nothing),
    }
}

/// The actuator is energized on nothing but a grant: the only state–event
/// pair whose action is a pulse is a successful verification outcome
/// arriving in `Identify`.
pub proof fn lemma_pulse_only_on_grant(s: LoopState, e: Event)
    ensures
        next_action(s, e) == Action::Pulse ==> s == LoopState::Identify && e == Event::Granted,
{
}

/// The loop state after the first `k` events of `evs`, starting from `s0`.
pub open spec fn state_at(s0: LoopState, evs: Seq<Event>, k: int) -> LoopState
    decreases k,
{
    if k <= 0 {
        s0
    } else {
        next_state(state_at(s0, evs, k - 1), evs[k - 1])
    }
}

/// `WaitForTag` is only ever entered from `Idle` (or kept from
/// `WaitForTag` itself), so a loop that is mid-iteration must pass through
/// `Idle` before it can wait for a tag again.
proof fn lemma_wait_passes_idle(s0: LoopState, evs: Seq<Event>, i: int, j: int)
    requires
        0 <= i,
        i < j <= evs.len(),
        state_at(s0, evs, i + 1) == LoopState::Identify,
        state_at(s0, evs, j) == LoopState::WaitForTag,
    ensures
        exists|k: int| i < k < j && state_at(s0, evs, k) == LoopState::Idle,
    decreases j - i,
{
    let prev = state_at(s0, evs, j - 1);
    assert(state_at(s0, evs, j) == next_state(prev, evs[j - 1]));
    assert(prev == LoopState::Idle || prev == LoopState::WaitForTag);
    assert(j - 1 > i) by {
        assert(state_at(s0, evs, i + 1) != LoopState::WaitForTag);
        assert(state_at(s0, evs, i + 1) != LoopState::Idle);
    }
    if prev == LoopState::Idle {
        assert(state_at(s0, evs, j - 1) == LoopState::Idle);
    } else {
        lemma_wait_passes_idle(s0, evs, i, j - 1);
    }
}

/// Single-iteration-isolation law: two consecutive detections never
/// interleave. If verification begins at step `i` and again at step `j`,
/// the loop reached `Idle` strictly in between: the first interaction ran to
/// completion before the second one's verification began.
pub proof fn lemma_single_iteration_isolation(s0: LoopState, evs: Seq<Event>, i: int, j: int)
    requires
        0 <= i,
        i + 1 < j,
        j < evs.len(),
        state_at(s0, evs, i) == LoopState::WaitForTag,
        state_at(s0, evs, i + 1) == LoopState::Identify,
        state_at(s0, evs, j) == LoopState::WaitForTag,
        state_at(s0, evs, j + 1) == LoopState::Identify,
    ensures
        exists|k: int| i < k < j && state_at(s0, evs, k) == LoopState::Idle,
{
    lemma_wait_passes_idle(s0, evs, i, j);
}

/// The event the loop feeds itself after verification, for each outcome
/// class.
pub open spec fn outcome_event_spec(r: Result<u32, AuthError<DatabaseError>>) -> Event {
    match r {
        Ok(_) => Event::Granted,
        Err(AuthError::Tag(_)) => Event::VerifyCommFault,
        Err(AuthError::Other(_)) => Event::DataFault,
        Err(AuthError::InvalidCredentials) => Event::Denied,
    }
}

/// Classifies a verification outcome into the event the loop reacts to.
pub fn outcome_event(r: &Result<u32, AuthError<DatabaseError>>) -> (e: Event)
    ensures
        e == outcome_event_spec(*r),
{
    match r {
        Ok(_) => Event::Granted,
        Err(AuthError::Tag(_)) => Event::VerifyCommFault,
        Err(AuthError::Other(_)) => Event::DataFault,
        Err(AuthError::InvalidCredentials) => Event::Denied,
    }
}

/// The event one detection outcome feeds the loop: a supported tag enters
/// verification, a foreign answer is silently discarded, a channel fault
/// starts recovery.
pub open spec fn tag_event_spec(r: Result<Seq<u8>, TagError>) -> Event {
    match r {
        Ok(_) => Event::TagDetected,
        Err(TagError::InvalidTag) => Event::ForeignTag,
        Err(TagError::Comm(_)) => Event::DetectFault,
    }
}

/// Classifies one detection outcome into the event the loop reacts to.
pub fn tag_event(r: &Result<Vec<u8>, TagError>) -> (e: Event)
    ensures
        e == tag_event_spec(match r {
            Ok(v) => Ok(v@),
            Err(t) => Err(*t),
        }),
{
    match r {
        Ok(_) => Event::TagDetected,
        Err(TagError::InvalidTag) => Event::ForeignTag,
        Err(TagError::Comm(_)) => Event::DetectFault,
    }
}

/// What one detection cycle produced at the reader.
pub enum Detection {
    /// Detection failed on the channel.
    Fault,
    /// Something answered that is not a supported card.
    Foreign,
    /// A supported card, with its state.
    Tag(SimCard),
}

/// What one full iteration of the operating loop did.
pub struct IterationReport {
    /// State the loop is left in: `Idle`, or `WaitForTag` after a silently
    /// discarded foreign tag.
    pub end_state: LoopState,
    /// Every action the iteration asked of the surrounding process, in
    /// order; `Nothing` entries are dropped.
    pub actions: Vec<Action>,
    /// The user a grant resolved to, if the iteration granted.
    pub user: Option<u32>,
}

/// Runs one full iteration of the operating loop from `Idle` against the
/// store and one detection outcome: detection, verification, actuation or
/// recovery, strictly in sequence. The actuator pulses exactly on a grant
/// and the cool-down-and-reconnect recovery runs exactly on a communication
/// fault.
pub fn run_iteration(store: &CredentialStore, detection: &Detection) -> (r: IterationReport)
    requires
        (detection matches Detection::Tag(card) ==> card.wf()),
    ensures
        match detection {
            Detection::Fault => r.end_state == LoopState::Idle && r.user is None && r.actions@
                =~= seq![
                Action::Listen,
                Action::ReportCommFault,
                Action::CoolDownAndReconnect,
            ],
            Detection::Foreign => r.end_state == LoopState::WaitForTag && r.user is None
                && r.actions@ =~= seq![Action::Listen, Action::Listen],
            Detection::Tag(card) => {
                let outcome = identify_spec(store.rows(), *card, card.tag_id@);
                match outcome {
                    Ok(uid) => r.end_state == LoopState::Idle && r.user == Some(uid) && r.actions@
                        =~= seq![Action::Listen, Action::RunVerification, Action::Pulse],
                    Err(AuthError::Tag(_)) => r.end_state == LoopState::Idle && r.user is None
                        && r.actions@ =~= seq![
                        Action::Listen,
                        Action::RunVerification,
                        Action::ReportCommFault,
                        Action::CoolDownAndReconnect,
                    ],
                    Err(AuthError::Other(_)) => r.end_state == LoopState::Idle && r.user is None
                        && r.actions@ =~= seq![
                        Action::Listen,
                        Action::RunVerification,
                        Action::ReportIntegrityFault,
                    ],
                    Err(AuthError::InvalidCredentials) => r.end_state == LoopState::Idle
                        && r.user is None && r.actions@ =~= seq![
                        Action::Listen,
                        Action::RunVerification,
                        Action::ReportDeny,
                    ],
                }
            },
        },
{
    let mut actions: Vec<Action> = Vec::new();
    let (s, a) = step(LoopState::Idle, Event::Tick);
    actions.push(a);
    match detection {
        Detection::Fault => {
            let (s2, a2) = step(s, Event::DetectFault);
            actions.push(a2);
            let (s3, a3) = step(s2, Event::Tick);
            actions.push(a3);
            let (s4, _a4) = step(s3, Event::Tick);
            IterationReport { end_state: s4, actions, user: None }
        },
        Detection::Foreign => {
            let (s2, a2) = step(s, Event::ForeignTag);
            actions.push(a2);
            IterationReport { end_state: s2, actions, user: None }
        },
        Detection::Tag(card) => {
            let (s2, a2) = step(s, Event::TagDetected);
            actions.push(a2);
            let outcome = identify_user(store, card, card.tag_id.as_slice());
            let ev = outcome_event(&outcome);
            let (s3, a3) = step(s2, ev);
            actions.push(a3);
            let user = match &outcome {
                Ok(uid) => Some(*uid),
                Err(_) => None,
            };
            match s3 {
                LoopState::CommFault => {
                    let (s4, a4) = step(s3, Event::Tick);
                    actions.push(a4);
                    let (s5, _a5) = step(s4, Event::Tick);
                    IterationReport { end_state: s5, actions, user }
                },
                _ => {
                    let (s4, _a4) = step(s3, Event::Tick);
                    IterationReport { end_state: s4, actions, user }
                },
            }
        },
    }
}

} // verus!
