use heimdall::card::{FaultMode, SimCard};
use heimdall::credential::{
    decode_auth_data, encode_auth_data, to_fixed16, to_fixed6, Credential,
};
use heimdall::error::{AuthError, CommError, DatabaseError, EnrollError, StoreError};
use heimdall::protocol::{
    add_tag, build_sector_trailer, enroll_with_payload, identify_user, lookup_outcome,
    match_secret,
};
use heimdall::store::CredentialStore;

const TAG_ID: [u8; 4] = [0xA1, 0xB2, 0xC3, 0xD4];
const KEY: [u8; 6] = [0x10, 0x20, 0x30, 0x40, 0x50, 0x60];
const SECRET: [u8; 16] = [
    0x00, 0x01, 0x02, 0x03, 0x04, 0x05, 0x06, 0x07, 0x08, 0x09, 0x0A, 0x0B, 0x0C, 0x0D, 0x0E,
    0x0F,
];

/// A healthy card whose sector 1 holds the given key A and secret block;
/// every other sector keeps the factory key and a zeroed block.
fn sim_card(tag: &[u8], key: &[u8], secret: &[u8]) -> SimCard {
    let mut keys: Vec<Vec<u8>> = Vec::new();
    let mut blocks: Vec<Vec<u8>> = Vec::new();
    for _ in 0..16 {
        keys.push(vec![0xFF; 6]);
        blocks.push(vec![0u8; 16]);
    }
    keys[1] = key.to_vec();
    blocks[1] = secret.to_vec();
    SimCard { tag_id: tag.to_vec(), keys, blocks, fault: FaultMode::Healthy }
}

/// The store row of the concrete scenarios: sector 1, key K, secret S.
fn stored_row(auth_method: u8) -> Credential {
    let mut auth_data = vec![0x01u8];
    auth_data.extend_from_slice(&KEY);
    auth_data.extend_from_slice(&SECRET);
    Credential { tag_id: TAG_ID.to_vec(), user_id: 42, auth_method, auth_data }
}

fn store_with_row(auth_method: u8) -> CredentialStore {
    let mut store = CredentialStore::new();
    store.insert(stored_row(auth_method)).unwrap();
    store
}

#[test]
fn verification_grants_on_exact_match() {
    let store = store_with_row(1);
    let card = sim_card(&TAG_ID, &KEY, &SECRET);
    assert_eq!(identify_user(&store, &card, &TAG_ID), Ok(42));
}

#[test]
fn verification_denies_unknown_tag() {
    let store = store_with_row(1);
    let card = sim_card(&[0xDE, 0xAD, 0xBE, 0xEF], &KEY, &SECRET);
    assert_eq!(
        identify_user(&store, &card, &[0xDE, 0xAD, 0xBE, 0xEF]),
        Err(AuthError::InvalidCredentials)
    );
}

#[test]
fn verification_denies_provisional_row() {
    let store = store_with_row(0);
    let card = sim_card(&TAG_ID, &KEY, &SECRET);
    assert_eq!(identify_user(&store, &card, &TAG_ID), Err(AuthError::InvalidCredentials));
}

#[test]
fn verification_rejects_tampered_secret_one_bit() {
    let store = store_with_row(1);
    let mut tampered = SECRET;
    tampered[15] ^= 0x01;
    let card = sim_card(&TAG_ID, &KEY, &tampered);
    assert_eq!(identify_user(&store, &card, &TAG_ID), Err(AuthError::InvalidCredentials));
}

#[test]
fn verification_wrong_key_is_comm_class() {
    let store = store_with_row(1);
    let mut other_key = KEY;
    other_key[0] ^= 0xFF;
    let card = sim_card(&TAG_ID, &other_key, &SECRET);
    assert_eq!(
        identify_user(&store, &card, &TAG_ID),
        Err(AuthError::Tag(CommError::Rejected))
    );
}

#[test]
fn verification_reports_bad_length_distinctly() {
    let mut store = CredentialStore::new();
    let mut row = stored_row(1);
    row.auth_data.pop();
    // A malformed row cannot go through `insert`; only a corrupted store
    // could hold one, so the store refuses it here.
    assert_eq!(store.insert(row), Err(StoreError::InvalidEncoding));
    // Decoding such a payload is the data-integrity fault verification
    // surfaces.
    let mut short = vec![0x01u8];
    short.extend_from_slice(&KEY);
    assert!(matches!(decode_auth_data(&short), Err(DatabaseError::InvalidLength)));
}

#[test]
fn verification_reports_bad_sector_distinctly() {
    let mut bad = vec![0x10u8];
    bad.extend_from_slice(&KEY);
    bad.extend_from_slice(&SECRET);
    assert!(matches!(decode_auth_data(&bad), Err(DatabaseError::InvalidSector)));
}

#[test]
fn verification_comm_fault_on_read() {
    let store = store_with_row(1);
    let mut card = sim_card(&TAG_ID, &KEY, &SECRET);
    card.fault = FaultMode::FailRead;
    assert_eq!(identify_user(&store, &card, &TAG_ID), Err(AuthError::Tag(CommError::Radio)));
}

#[test]
fn enrollment_then_verification_round_trip() {
    let mut store = CredentialStore::new();
    let mut card = SimCard::factory_fresh(TAG_ID.to_vec());
    add_tag(42, &mut store, &mut card).unwrap();
    assert_eq!(identify_user(&store, &card, &TAG_ID), Ok(42));
    let rows = store.list_all();
    assert_eq!(rows.len(), 1);
    assert_eq!(rows[0].auth_method, 1);
    assert_eq!(rows[0].user_id, 42);
    assert_eq!(rows[0].auth_data.len(), 23);
    assert_eq!(rows[0].auth_data[0], 0x01);
}

#[test]
fn enrollment_rejects_provisioned_card() {
    let mut store = CredentialStore::new();
    // A card already carrying a non-factory key on sector 1 fails the
    // factory-key handshake before anything is persisted.
    let mut card = sim_card(&TAG_ID, &KEY, &SECRET);
    assert_eq!(
        add_tag(42, &mut store, &mut card),
        Err(EnrollError::Comm(CommError::Rejected))
    );
    assert_eq!(store.list_all().len(), 0);
}

#[test]
fn enrollment_interrupted_leaves_one_provisional_row() {
    let mut store = CredentialStore::new();
    let mut card = SimCard::factory_fresh(TAG_ID.to_vec());
    card.fault = FaultMode::FailBlockWrite;
    assert_eq!(
        add_tag(42, &mut store, &mut card),
        Err(EnrollError::Comm(CommError::Radio))
    );
    let rows = store.list_all();
    assert_eq!(rows.len(), 1);
    assert_eq!(rows[0].auth_method, 0);
    assert_eq!(rows[0].tag_id, TAG_ID.to_vec());
    // The provisional row never grants, whatever card is presented.
    card.fault = FaultMode::Healthy;
    assert_eq!(identify_user(&store, &card, &TAG_ID), Err(AuthError::InvalidCredentials));
}

#[test]
fn enrollment_interrupted_at_trailer_write() {
    let mut store = CredentialStore::new();
    let mut card = SimCard::factory_fresh(TAG_ID.to_vec());
    card.fault = FaultMode::FailKeyWrite;
    assert_eq!(
        add_tag(42, &mut store, &mut card),
        Err(EnrollError::Comm(CommError::Radio))
    );
    let rows = store.list_all();
    assert_eq!(rows.len(), 1);
    assert_eq!(rows[0].auth_method, 0);
    // The sector key was never overwritten.
    assert_eq!(card.keys[1], vec![0xFF; 6]);
}

#[test]
fn enrollment_refuses_duplicate_tag() {
    let mut store = store_with_row(1);
    let mut card = SimCard::factory_fresh(TAG_ID.to_vec());
    assert_eq!(
        add_tag(7, &mut store, &mut card),
        Err(EnrollError::Store(StoreError::Duplicate))
    );
    assert_eq!(store.list_all().len(), 1);
    assert_eq!(store.list_all()[0].user_id, 42);
}

#[test]
fn auth_data_encode_decode_round_trip() {
    let encoded = encode_auth_data(1, &KEY.to_vec(), &SECRET.to_vec());
    assert_eq!(encoded.len(), 23);
    let decoded = decode_auth_data(&encoded).unwrap();
    assert_eq!(decoded.sector, 1);
    assert_eq!(decoded.key, KEY.to_vec());
    assert_eq!(decoded.secret, SECRET.to_vec());
}

#[test]
fn sector_trailer_layout() {
    let trailer = build_sector_trailer(&KEY.to_vec());
    assert_eq!(&trailer[0..6], &KEY);
    assert_eq!(
        &trailer[6..16],
        &[0xFF, 0x07, 0x80, 0x69, 0xFF, 0xFE, 0xFF, 0xFF, 0xFF, 0xFF]
    );
}

#[test]
fn fixed_prefix_conversions_check_bounds() {
    assert_eq!(to_fixed6(&[1, 2, 3, 4, 5]), None);
    assert_eq!(to_fixed6(&[1, 2, 3, 4, 5, 6, 7]), Some(vec![1, 2, 3, 4, 5, 6]));
    assert_eq!(to_fixed16(&SECRET[..15]), None);
    assert_eq!(to_fixed16(&SECRET), Some(SECRET.to_vec()));
}

#[test]
fn store_lookup_is_first_match_and_update_finalizes() {
    let mut store = CredentialStore::new();
    store.insert(stored_row(0)).unwrap();
    let mut other = stored_row(1);
    other.tag_id = vec![0x01, 0x02, 0x03, 0x04];
    other.user_id = 7;
    store.insert(other).unwrap();
    assert_eq!(store.find_by_tag_id(&TAG_ID).unwrap().user_id, 42);
    assert!(store.find_by_tag_id(&[0x09, 0x09, 0x09, 0x09]).is_none());

    let finalized = stored_row(1);
    store.update(finalized).unwrap();
    assert_eq!(store.find_by_tag_id(&TAG_ID).unwrap().auth_method, 1);
    assert_eq!(store.list_all().len(), 2);

    let mut missing = stored_row(1);
    missing.tag_id = vec![0x0A, 0x0B, 0x0C, 0x0D];
    assert_eq!(store.update(missing), Err(StoreError::NotFound));
}

#[test]
fn hex_rendering_matches_reference() {
    assert_eq!(heimdall::hex_upper(&TAG_ID), b"A1B2C3D4".to_vec());
    assert_eq!(heimdall::hex_upper(&[]), Vec::<u8>::new());
    assert_eq!(heimdall::hex_upper(&[0x0F, 0xF0, 0x00]), b"0FF000".to_vec());
}

#[test]
fn bytes_eq_is_exact() {
    assert!(heimdall::bytes_eq(&SECRET, &SECRET));
    assert!(!heimdall::bytes_eq(&SECRET, &SECRET[..15]));
    let mut flipped = SECRET;
    flipped[0] ^= 0x80;
    assert!(!heimdall::bytes_eq(&SECRET, &flipped));
}

#[test]
fn enrollment_with_payload_stores_draw_verbatim() {
    let mut payload = KEY.to_vec();
    payload.extend_from_slice(&SECRET);
    let mut store = CredentialStore::new();
    let mut card = SimCard::factory_fresh(TAG_ID.to_vec());
    enroll_with_payload(42, 1, &payload, &mut store, &mut card).unwrap();
    let rows = store.list_all();
    assert_eq!(rows.len(), 1);
    let mut expected = vec![0x01u8];
    expected.extend_from_slice(&payload);
    assert_eq!(rows[0].auth_data, expected);
    assert_eq!(rows[0].auth_method, 1);
    assert_eq!(rows[0].user_id, 42);
    assert_eq!(card.keys[1], KEY.to_vec());
    assert_eq!(card.blocks[1], SECRET.to_vec());
    assert_eq!(identify_user(&store, &card, &TAG_ID), Ok(42));
}

#[test]
fn enrollment_with_payload_requires_factory_key() {
    let mut payload = KEY.to_vec();
    payload.extend_from_slice(&SECRET);
    let mut store = CredentialStore::new();
    let mut card = sim_card(&TAG_ID, &KEY, &SECRET);
    assert_eq!(
        enroll_with_payload(42, 1, &payload, &mut store, &mut card),
        Err(EnrollError::Comm(CommError::Rejected))
    );
    assert_eq!(store.list_all().len(), 0);
    assert_eq!(card.keys[1], KEY.to_vec());
}

#[test]
fn lookup_outcome_settles_the_pre_card_decision() {
    assert_eq!(lookup_outcome(None), Err(AuthError::InvalidCredentials));
    let provisional = stored_row(0);
    assert_eq!(
        lookup_outcome(Some(&provisional)),
        Err(AuthError::InvalidCredentials)
    );
    let good = stored_row(1);
    let (uid, decoded) = lookup_outcome(Some(&good)).unwrap();
    assert_eq!(uid, 42);
    assert_eq!(decoded.sector, 1);
    assert_eq!(decoded.key, KEY.to_vec());
    assert_eq!(decoded.secret, SECRET.to_vec());
    let mut short = stored_row(1);
    short.auth_data.pop();
    assert_eq!(
        lookup_outcome(Some(&short)),
        Err(AuthError::Other(DatabaseError::InvalidLength))
    );
    let mut bad_sector = stored_row(1);
    bad_sector.auth_data[0] = 0x10;
    assert_eq!(
        lookup_outcome(Some(&bad_sector)),
        Err(AuthError::Other(DatabaseError::InvalidSector))
    );
}

#[test]
fn match_secret_grants_only_exact_match() {
    assert_eq!(match_secret(&SECRET, &SECRET, 42), Ok(42));
    let mut flipped = SECRET;
    flipped[7] ^= 0x01;
    assert_eq!(
        match_secret(&flipped, &SECRET, 42),
        Err(AuthError::InvalidCredentials)
    );
    assert_eq!(
        match_secret(&SECRET[..15], &SECRET, 42),
        Err(AuthError::InvalidCredentials)
    );
}
