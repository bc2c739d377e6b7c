use heimdall::card::{FaultMode, SimCard};
use heimdall::credential::Credential;
use heimdall::machine::{
    outcome_event, run_iteration, step, tag_event, Action, Detection, Event, LoopState,
    COOLDOWN_MILLIS, PULSE_MILLIS,
};
use heimdall::error::{AuthError, CommError, DatabaseError, TagError};
use heimdall::store::CredentialStore;

const TAG_ID: [u8; 4] = [0xA1, 0xB2, 0xC3, 0xD4];
const KEY: [u8; 6] = [0x10, 0x20, 0x30, 0x40, 0x50, 0x60];
const SECRET: [u8; 16] = [
    0x00, 0x01, 0x02, 0x03, 0x04, 0x05, 0x06, 0x07, 0x08, 0x09, 0x0A, 0x0B, 0x0C, 0x0D, 0x0E,
    0x0F,
];

fn sim_card(tag: &[u8], key: &[u8], secret: &[u8]) -> SimCard {
    let mut keys: Vec<Vec<u8>> = Vec::new();
    let mut blocks: Vec<Vec<u8>> = Vec::new();
    for _ in 0..16 {
        keys.push(vec![0xFF; 6]);
        blocks.push(vec![0u8; 16]);
    }
    keys[1] = key.to_vec();
    blocks[1] = secret.to_vec();
    SimCard { tag_id: tag.to_vec(), keys, blocks, fault: FaultMode::Healthy }
}

fn scenario_store() -> CredentialStore {
    let mut auth_data = vec![0x01u8];
    auth_data.extend_from_slice(&KEY);
    auth_data.extend_from_slice(&SECRET);
    let mut store = CredentialStore::new();
    store
        .insert(Credential { tag_id: TAG_ID.to_vec(), user_id: 42, auth_method: 1, auth_data })
        .unwrap();
    store
}

#[test]
fn grant_scenario_pulses_once_then_idle() {
    let store = scenario_store();
    let card = sim_card(&TAG_ID, &KEY, &SECRET);
    let report = run_iteration(&store, &Detection::Tag(card));
    assert_eq!(report.user, Some(42));
    assert_eq!(report.end_state, LoopState::Idle);
    assert_eq!(
        report.actions,
        vec![Action::Listen, Action::RunVerification, Action::Pulse]
    );
    assert_eq!(
        report.actions.iter().filter(|a| **a == Action::Pulse).count(),
        1
    );
}

#[test]
fn tampered_scenario_denies_without_energizing() {
    let store = scenario_store();
    let mut tampered = SECRET;
    tampered[15] ^= 0x01;
    let card = sim_card(&TAG_ID, &KEY, &tampered);
    let report = run_iteration(&store, &Detection::Tag(card));
    assert_eq!(report.user, None);
    assert_eq!(report.end_state, LoopState::Idle);
    assert_eq!(
        report.actions,
        vec![Action::Listen, Action::RunVerification, Action::ReportDeny]
    );
    assert!(!report.actions.contains(&Action::Pulse));
}

#[test]
fn read_fault_scenario_recovers_without_energizing() {
    let store = scenario_store();
    let mut card = sim_card(&TAG_ID, &KEY, &SECRET);
    card.fault = FaultMode::FailRead;
    let report = run_iteration(&store, &Detection::Tag(card));
    assert_eq!(report.user, None);
    assert_eq!(report.end_state, LoopState::Idle);
    assert_eq!(
        report.actions,
        vec![
            Action::Listen,
            Action::RunVerification,
            Action::ReportCommFault,
            Action::CoolDownAndReconnect
        ]
    );
    assert!(!report.actions.contains(&Action::Pulse));
}

#[test]
fn detection_fault_recovers() {
    let store = scenario_store();
    let report = run_iteration(&store, &Detection::Fault);
    assert_eq!(report.user, None);
    assert_eq!(report.end_state, LoopState::Idle);
    assert_eq!(
        report.actions,
        vec![Action::Listen, Action::ReportCommFault, Action::CoolDownAndReconnect]
    );
}

#[test]
fn foreign_tag_silently_discarded() {
    let store = scenario_store();
    let report = run_iteration(&store, &Detection::Foreign);
    assert_eq!(report.user, None);
    assert_eq!(report.end_state, LoopState::WaitForTag);
    assert_eq!(report.actions, vec![Action::Listen, Action::Listen]);
}

#[test]
fn corrupt_row_reports_integrity_fault() {
    // A store holding a malformed row can only come from outside the normal
    // insert path; model it by a row that decodes to a bad sector.
    let mut auth_data = vec![0x10u8];
    auth_data.extend_from_slice(&KEY);
    auth_data.extend_from_slice(&SECRET);
    let mut store = CredentialStore::new();
    store
        .insert(Credential { tag_id: TAG_ID.to_vec(), user_id: 42, auth_method: 1, auth_data })
        .unwrap();
    let card = sim_card(&TAG_ID, &KEY, &SECRET);
    let report = run_iteration(&store, &Detection::Tag(card));
    assert_eq!(report.user, None);
    assert_eq!(report.end_state, LoopState::Idle);
    assert_eq!(
        report.actions,
        vec![Action::Listen, Action::RunVerification, Action::ReportIntegrityFault]
    );
}

#[test]
fn step_transitions_follow_the_design() {
    assert_eq!(
        step(LoopState::Idle, Event::Tick),
        (LoopState::WaitForTag, Action::Listen)
    );
    assert_eq!(
        step(LoopState::WaitForTag, Event::TagDetected),
        (LoopState::Identify, Action::RunVerification)
    );
    assert_eq!(
        step(LoopState::WaitForTag, Event::ForeignTag),
        (LoopState::WaitForTag, Action::Listen)
    );
    assert_eq!(
        step(LoopState::WaitForTag, Event::DetectFault),
        (LoopState::CommFault, Action::ReportCommFault)
    );
    assert_eq!(
        step(LoopState::Identify, Event::Granted),
        (LoopState::Grant, Action::Pulse)
    );
    assert_eq!(
        step(LoopState::Identify, Event::Denied),
        (LoopState::Deny, Action::ReportDeny)
    );
    assert_eq!(
        step(LoopState::Identify, Event::DataFault),
        (LoopState::Deny, Action::ReportIntegrityFault)
    );
    assert_eq!(
        step(LoopState::Identify, Event::VerifyCommFault),
        (LoopState::CommFault, Action::ReportCommFault)
    );
    assert_eq!(step(LoopState::Grant, Event::Tick), (LoopState::Idle, Action::Nothing));
    assert_eq!(step(LoopState::Deny, Event::Tick), (LoopState::Idle, Action::Nothing));
    assert_eq!(
        step(LoopState::CommFault, Event::Tick),
        (LoopState::Reinitializing, Action::CoolDownAndReconnect)
    );
    assert_eq!(
        step(LoopState::Reinitializing, Event::Tick),
        (LoopState::Idle, Action::Nothing)
    );
    // An event that makes no sense in a state changes nothing.
    assert_eq!(
        step(LoopState::Idle, Event::Granted),
        (LoopState::Idle, Action::Nothing)
    );
    assert_eq!(
        step(LoopState::Identify, Event::TagDetected),
        (LoopState::Identify, Action::Nothing)
    );
}

#[test]
fn outcome_classification() {
    assert_eq!(outcome_event(&Ok(42)), Event::Granted);
    assert_eq!(
        outcome_event(&Err(AuthError::Tag(CommError::Radio))),
        Event::VerifyCommFault
    );
    assert_eq!(
        outcome_event(&Err(AuthError::Other(DatabaseError::InvalidLength))),
        Event::DataFault
    );
    assert_eq!(outcome_event(&Err(AuthError::InvalidCredentials)), Event::Denied);
}

#[test]
fn fixed_timing_policy() {
    assert_eq!(PULSE_MILLIS, 5000);
    assert_eq!(COOLDOWN_MILLIS, 60000);
}

#[test]
fn detection_classification() {
    assert_eq!(
        tag_event(&Ok(vec![0xA1, 0xB2, 0xC3, 0xD4])),
        Event::TagDetected
    );
    assert_eq!(tag_event(&Err(TagError::InvalidTag)), Event::ForeignTag);
    assert_eq!(
        tag_event(&Err(TagError::Comm(CommError::Radio))),
        Event::DetectFault
    );
}
