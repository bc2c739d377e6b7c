use vstd::prelude::*;
use crate::card::{factory_default_key, factory_key, FaultMode, SimCard};
use crate::credential::{
    ad_key, ad_secret, ad_sector, auth_data_len_ok, auth_data_wf, copy_bytes, copy_range,
    decode_auth_data, encode_auth_data, Credential, DecodedAuth, AUTH_DATA_LEN, BLOCK_LEN,
    ENROLL_SECTOR, KEY_LEN, SECRET_LEN, SECTOR_COUNT,
};
use crate::error::{AuthError, CommError, DatabaseError, EnrollError, StoreError};
use crate::rng::random_key_and_secret;
use crate::store::{
    count_matching, lemma_count_push, lemma_lookup_none_count, lemma_lookup_none_no_match,
    lemma_lookup_push, lookup, CredentialStore,
};

verus! {

/// The whole verification decision as one total function over the stored
/// rows, the card state and the reported identifier: unknown or provisional
/// credentials deny; a malformed row is a data-integrity fault; the sector
/// handshake fails on a channel fault or a wrong recorded key; a read fault
/// propagates; and only an exact 16-byte secret match grants, resolving to
/// the recorded user.
pub open spec fn identify_spec(rows: Seq<Credential>, card: SimCard, id: Seq<u8>) -> Result<
    u32,
    AuthError<DatabaseError>,
> {
    match lookup(rows, id) {
        None => Err(AuthError::InvalidCredentials),
        Some(c) => if c.auth_method != 1 {
            Err(AuthError::InvalidCredentials)
        } else if c.auth_data@.len() != AUTH_DATA_LEN {
            Err(AuthError::Other(DatabaseError::InvalidLength))
        } else if ad_sector(c.auth_data@) >= SECTOR_COUNT {
            Err(AuthError::Other(DatabaseError::InvalidSector))
        } else if card.fault == FaultMode::FailAuth {
            Err(AuthError::Tag(CommError::Radio))
        } else if ad_key(c.auth_data@) != card.keys@[ad_sector(c.auth_data@) as int]@ {
            Err(AuthError::Tag(CommError::Rejected))
        } else if card.fault == FaultMode::FailRead {
            Err(AuthError::Tag(CommError::Radio))
        } else if card.blocks@[ad_sector(c.auth_data@) as int]@ == ad_secret(c.auth_data@) {
            Ok(c.user_id)
        } else {
            Err(AuthError::InvalidCredentials)
        },
    }
}

/// The pre-card part of the verification decision: unknown and provisional
/// credentials deny, a malformed row is the distinct data-integrity fault,
/// and a clean row resolves to its user and decoded sector, key and secret.
pub fn lookup_outcome(found: Option<&Credential>) -> (r: Result<
    (u32, DecodedAuth),
    AuthError<DatabaseError>,
>)
    ensures
        r is Ok <==> (found is Some && found.unwrap().auth_method == 1 && auth_data_wf(
            found.unwrap().auth_data@,
        )),
        r is Ok ==> ({
            let c = *found.unwrap();
            let (u, d) = r.unwrap();
            u == c.user_id && d.sector == ad_sector(c.auth_data@) && d.key@ == ad_key(c.auth_data@)
                && d.secret@ == ad_secret(c.auth_data@)
        }),
        (found is None || found.unwrap().auth_method != 1) ==> r == Err::<
            (u32, DecodedAuth),
            AuthError<DatabaseError>,
        >(AuthError::InvalidCredentials),
        (found is Some && found.unwrap().auth_method == 1 && !auth_data_len_ok(
            found.unwrap().auth_data@,
        )) ==> r == Err::<(u32, DecodedAuth), AuthError<DatabaseError>>(
            AuthError::Other(DatabaseError::InvalidLength),
        ),
        (found is Some && found.unwrap().auth_method == 1 && auth_data_len_ok(
            found.unwrap().auth_data@,
        ) && ad_sector(found.unwrap().auth_data@) >= SECTOR_COUNT) ==> r == Err::<
            (u32, DecodedAuth),
            AuthError<DatabaseError>,
        >(AuthError::Other(DatabaseError::InvalidSector)),
{
    let cred = match found {
        Some(c) => c,
        None => {
            return Err(AuthError::InvalidCredentials);
        },
    };
    if cred.auth_method != 1 {
        return Err(AuthError::InvalidCredentials);
    }
    match decode_auth_data(&cred.auth_data) {
        Ok(d) => Ok((cred.user_id, d)),
        Err(e) => Err(AuthError::Other(e)),
    }
}

/// The final verification decision: an exact byte-for-byte match of the
/// block read from the card against the recorded secret grants and resolves
/// to the given user; anything else denies.
pub fn match_secret(block: &[u8], secret: &[u8], uid: u32) -> (r: Result<
    u32,
    AuthError<DatabaseError>,
>)
    ensures
        r == if block@ == secret@ {
            Ok::<u32, AuthError<DatabaseError>>(uid)
        } else {
            Err::<u32, AuthError<DatabaseError>>(AuthError::InvalidCredentials)
        },
{
    if crate::bytes_eq(block, secret) {
        Ok(uid)
    } else {
        Err(AuthError::InvalidCredentials)
    }
}

/// Verification (one pass/fail decision with three distinguishable failure
/// classes): looks the tag up, validates the stored row, authenticates the
/// recorded sector with the recorded key, reads the secret block back and
/// compares it byte for byte.
pub fn identify_user(store: &CredentialStore, card: &SimCard, tag_id: &[u8]) -> (r: Result<
    u32,
    AuthError<DatabaseError>,
>)
    requires
        card.wf(),
    ensures
        r == identify_spec(store.rows(), *card, tag_id@),
{
    let found = store.find_by_tag_id(tag_id);
    let (uid, decoded) = match lookup_outcome(found) {
        Ok(p) => p,
        Err(e) => {
            return Err(e);
        },
    };
    let auth = match card.authenticate_sector(decoded.sector, &decoded.key) {
        Ok(a) => a,
        Err(e) => {
            return Err(AuthError::Tag(e));
        },
    };
    let block = match card.read_block(&auth) {
        Ok(b) => b,
        Err(e) => {
            return Err(AuthError::Tag(e));
        },
    };
    match_secret(block.as_slice(), decoded.secret.as_slice(), uid)
}

/// Fixed tail of the sector trailer enrollment writes: access bits and the
/// fixed key B, after the six bytes of the new key A.
pub open spec fn trailer_tail() -> Seq<u8> {
    seq![0xFFu8, 0x07u8, 0x80u8, 0x69u8, 0xFFu8, 0xFEu8, 0xFFu8, 0xFFu8, 0xFFu8, 0xFFu8]
}

/// Builds the 16-byte sector trailer for a new key A: the key in the first
/// six bytes, then the fixed access-bit layout and key B.
pub fn build_sector_trailer(key: &Vec<u8>) -> (r: Vec<u8>)
    requires
        key@.len() == KEY_LEN,
    ensures
        r@.len() == BLOCK_LEN,
        r@.subrange(0, KEY_LEN as int) == key@,
        r@.subrange(KEY_LEN as int, BLOCK_LEN as int) == trailer_tail(),
{
    let mut r = copy_bytes(key.as_slice());
    r.push(0xFFu8);
    r.push(0x07u8);
    r.push(0x80u8);
    r.push(0x69u8);
    r.push(0xFFu8);
    r.push(0xFEu8);
    r.push(0xFFu8);
    r.push(0xFFu8);
    r.push(0xFFu8);
    r.push(0xFFu8);
    proof {
        assert(r@.subrange(0, KEY_LEN as int) =~= key@);
        assert(r@.subrange(KEY_LEN as int, BLOCK_LEN as int) =~= trailer_tail());
    }
    r
}

/// The key an enrollment payload carries: its first six bytes.
pub open spec fn payload_key(p: Seq<u8>) -> Seq<u8> {
    p.subrange(0, KEY_LEN as int)
}

/// The secret an enrollment payload carries: its last sixteen bytes.
pub open spec fn payload_secret(p: Seq<u8>) -> Seq<u8> {
    p.subrange(KEY_LEN as int, (KEY_LEN + SECRET_LEN) as int)
}

/// The row enrollment persists before any destructive card write: the
/// provisional marker, the enrolled sector, and a well-formed payload.
pub open spec fn provisional_row(c: Credential, id: Seq<u8>, uid: u32, sector: u8) -> bool {
    c.tag_id@ == id && c.user_id == uid && c.auth_method == 0 && auth_data_wf(c.auth_data@)
        && ad_sector(c.auth_data@) == sector
}

/// The store grew by exactly one provisional row for this tag, with every
/// earlier row untouched: the recoverable trace an interrupted enrollment
/// leaves behind.
pub open spec fn provisional_appended(
    old_rows: Seq<Credential>,
    rows: Seq<Credential>,
    id: Seq<u8>,
    uid: u32,
    sector: u8,
) -> bool {
    rows.len() == old_rows.len() + 1 && rows.subrange(0, old_rows.len() as int) == old_rows
        && provisional_row(rows.last(), id, uid, sector)
}

/// Store and card agree after a completed enrollment: the store's last row
/// is finalized for this card and user, every earlier row is untouched, and
/// the card's enrolled sector holds exactly the recorded key and secret.
pub open spec fn enrolled(
    old_rows: Seq<Credential>,
    rows: Seq<Credential>,
    card: SimCard,
    uid: u32,
    sector: u8,
) -> bool {
    rows.len() == old_rows.len() + 1 && rows.subrange(0, old_rows.len() as int) == old_rows && {
        let c = rows.last();
        c.tag_id@ == card.tag_id@ && c.user_id == uid && c.auth_method == 1 && auth_data_wf(
            c.auth_data@,
        ) && ad_sector(c.auth_data@) == sector && card.keys@[sector as int]@ == ad_key(c.auth_data@)
            && card.blocks@[sector as int]@ == ad_secret(c.auth_data@)
    }
}

/// Everything of enrollment after the random draw, for an explicit sector
/// and a given 22-byte payload: authenticates the sector with the
/// factory-default key, persists a provisional row before any destructive
/// card write, writes the payload's secret to the data block, overwrites
/// the sector trailer with the payload's key (the irreversible step), and
/// finalizes the row. Deterministic per payload: on success the finalized
/// row and the card hold the payload's key and secret verbatim.
pub fn enroll_with_payload(
    uid: u32,
    sector: u8,
    payload: &Vec<u8>,
    store: &mut CredentialStore,
    card: &mut SimCard,
) -> (r: Result<(), EnrollError>)
    requires
        old(card).wf(),
        sector < SECTOR_COUNT,
        payload@.len() == KEY_LEN + SECRET_LEN,
    ensures
        final(card).wf(),
        final(card).tag_id@ == old(card).tag_id@,
        final(card).fault == old(card).fault,
        r != Err::<(), EnrollError>(EnrollError::Entropy),
        match r {
            Ok(()) => lookup(old(store).rows(), old(card).tag_id@) is None
                && old(card).keys@[sector as int]@ == factory_key()
                && old(card).fault != FaultMode::FailAuth
                && old(card).fault != FaultMode::FailBlockWrite
                && old(card).fault != FaultMode::FailKeyWrite
                && enrolled(old(store).rows(), final(store).rows(), *final(card), uid, sector)
                && ad_key(final(store).rows().last().auth_data@) == payload_key(payload@)
                && ad_secret(final(store).rows().last().auth_data@) == payload_secret(payload@)
                && (forall|i: int| 0 <= i < SECTOR_COUNT && i != sector
                    ==> (#[trigger] final(card).keys@[i])@ == old(card).keys@[i]@)
                && (forall|i: int| 0 <= i < SECTOR_COUNT && i != sector
                    ==> (#[trigger] final(card).blocks@[i])@ == old(card).blocks@[i]@),
            Err(EnrollError::Comm(e)) => final(card).keys@ == old(card).keys@
                && ((final(store).rows() == old(store).rows()
                && final(card).blocks@ == old(card).blocks@ && ((e == CommError::Radio && old(
                card,
            ).fault == FaultMode::FailAuth) || (e == CommError::Rejected && old(card).fault
                != FaultMode::FailAuth && old(card).keys@[sector as int]@ != factory_key())))
                || (provisional_appended(
                old(store).rows(),
                final(store).rows(),
                old(card).tag_id@,
                uid,
                sector,
            ) && lookup(old(store).rows(), old(card).tag_id@) is None && e == CommError::Radio
                && ((old(card).fault == FaultMode::FailBlockWrite
                && final(card).blocks@ == old(card).blocks@) || (old(card).fault
                == FaultMode::FailKeyWrite
                && final(card).blocks@[sector as int]@ == ad_secret(
                final(store).rows().last().auth_data@,
            ) && (forall|i: int| 0 <= i < SECTOR_COUNT && i != sector
                ==> (#[trigger] final(card).blocks@[i])@ == old(card).blocks@[i]@))))),
            Err(EnrollError::Store(se)) => se == StoreError::Duplicate && lookup(
                old(store).rows(),
                old(card).tag_id@,
            ) is Some && final(store).rows() == old(store).rows()
                && final(card).keys@ == old(card).keys@
                && final(card).blocks@ == old(card).blocks@,
            Err(EnrollError::Entropy) => final(store).rows() == old(store).rows()
                && final(card).keys@ == old(card).keys@
                && final(card).blocks@ == old(card).blocks@,
        },
{
    let factory = factory_default_key();
    let auth = match card.authenticate_sector(sector, &factory) {
        Ok(a) => a,
        Err(e) => {
            return Err(EnrollError::Comm(e));
        },
    };
    let key = copy_range(payload.as_slice(), 0, KEY_LEN);
    let secret = copy_range(payload.as_slice(), KEY_LEN, KEY_LEN + SECRET_LEN);
    let ghost gid = old(card).tag_id@;
    let provisional = Credential {
        tag_id: copy_bytes(card.tag_id.as_slice()),
        user_id: uid,
        auth_method: 0,
        auth_data: encode_auth_data(sector, &key, &secret),
    };
    let ghost prov = provisional;
    let ghost rows_before = store.rows();
    match store.insert(provisional) {
        Ok(()) => (),
        Err(se) => {
            return Err(EnrollError::Store(se));
        },
    };
    match card.write_block(&auth, &secret) {
        Ok(()) => (),
        Err(e) => {
            proof {
                assert(store.rows().subrange(0, rows_before.len() as int) =~= rows_before);
            }
            return Err(EnrollError::Comm(e));
        },
    };
    let trailer = build_sector_trailer(&key);
    match card.write_keys(&auth, &trailer) {
        Ok(()) => (),
        Err(e) => {
            proof {
                assert(store.rows().subrange(0, rows_before.len() as int) =~= rows_before);
            }
            return Err(EnrollError::Comm(e));
        },
    };
    let finalized = Credential {
        tag_id: copy_bytes(card.tag_id.as_slice()),
        user_id: uid,
        auth_method: 1,
        auth_data: encode_auth_data(sector, &key, &secret),
    };
    let ghost fin = finalized;
    proof {
        lemma_lookup_push(rows_before, gid, prov);
        assert(lookup(store.rows(), gid) == Some(prov));
    }
    match store.update(finalized) {
        Ok(()) => (),
        Err(se) => {
            return Err(EnrollError::Store(se));
        },
    };
    proof {
        lemma_lookup_none_no_match(rows_before, gid);
        let pushed = rows_before.push(prov);
        let i = choose|i: int|
            0 <= i < pushed.len() && #[trigger] pushed[i].tag_id@ == fin.tag_id@ && (forall|k: int|
                0 <= k < i ==> pushed[k].tag_id@ != fin.tag_id@) && store.rows() == pushed.update(
                i,
                fin,
            );
        assert(i == rows_before.len() as int);
        assert(store.rows().last() == fin);
        assert(store.rows().subrange(0, rows_before.len() as int) =~= rows_before);
    }
    Ok(())
}

/// Enrollment (the whole protocol): draws a fresh 22-byte key-and-secret
/// payload from the secure random source and runs `enroll_with_payload` on
/// the fixed enrolled sector with it. A source failure comes back as an
/// error with nothing changed; everything the outcome says of the store and
/// the card is `enroll_with_payload`'s contract, with the payload the draw
/// produced.
pub fn add_tag(uid: u32, store: &mut CredentialStore, card: &mut SimCard) -> (r: Result<
    (),
    EnrollError,
>)
    requires
        old(card).wf(),
    ensures
        final(card).wf(),
        final(card).tag_id@ == old(card).tag_id@,
        final(card).fault == old(card).fault,
        match r {
            Ok(()) => lookup(old(store).rows(), old(card).tag_id@) is None
                && old(card).keys@[ENROLL_SECTOR as int]@ == factory_key()
                && old(card).fault != FaultMode::FailAuth
                && old(card).fault != FaultMode::FailBlockWrite
                && old(card).fault != FaultMode::FailKeyWrite
                && enrolled(old(store).rows(), final(store).rows(), *final(card), uid,
                ENROLL_SECTOR)
                && (forall|i: int| 0 <= i < SECTOR_COUNT && i != ENROLL_SECTOR
                    ==> (#[trigger] final(card).keys@[i])@ == old(card).keys@[i]@)
                && (forall|i: int| 0 <= i < SECTOR_COUNT && i != ENROLL_SECTOR
                    ==> (#[trigger] final(card).blocks@[i])@ == old(card).blocks@[i]@),
            Err(EnrollError::Comm(e)) => final(card).keys@ == old(card).keys@
                && ((final(store).rows() == old(store).rows()
                && final(card).blocks@ == old(card).blocks@ && ((e == CommError::Radio && old(
                card,
            ).fault == FaultMode::FailAuth) || (e == CommError::Rejected && old(card).fault
                != FaultMode::FailAuth && old(card).keys@[ENROLL_SECTOR as int]@
                != factory_key()))) || (provisional_appended(
                old(store).rows(),
                final(store).rows(),
                old(card).tag_id@,
                uid,
                ENROLL_SECTOR,
            ) && lookup(old(store).rows(), old(card).tag_id@) is None && e == CommError::Radio
                && ((old(card).fault == FaultMode::FailBlockWrite
                && final(card).blocks@ == old(card).blocks@) || (old(card).fault
                == FaultMode::FailKeyWrite
                && final(card).blocks@[ENROLL_SECTOR as int]@ == ad_secret(
                final(store).rows().last().auth_data@,
            ) && (forall|i: int| 0 <= i < SECTOR_COUNT && i != ENROLL_SECTOR
                ==> (#[trigger] final(card).blocks@[i])@ == old(card).blocks@[i]@))))),
            Err(EnrollError::Store(se)) => se == StoreError::Duplicate && lookup(
                old(store).rows(),
                old(card).tag_id@,
            ) is Some && final(store).rows() == old(store).rows()
                && final(card).keys@ == old(card).keys@
                && final(card).blocks@ == old(card).blocks@,
            Err(EnrollError::Entropy) => final(store).rows() == old(store).rows()
                && final(card).keys@ == old(card).keys@
                && final(card).blocks@ == old(card).blocks@,
        },
{
    let payload = match random_key_and_secret() {
        Some(p) => p,
        None => {
            return Err(EnrollError::Entropy);
        },
    };
    enroll_with_payload(uid, ENROLL_SECTOR, &payload, store, card)
}

/// Round-trip law: enrollment followed immediately by verification on the
/// same card and store succeeds and resolves to the enrolled user — for a
/// tag that was not already on record, over a channel that does not fault
/// the verification exchanges themselves.
pub proof fn lemma_enroll_verify_round_trip(
    old_rows: Seq<Credential>,
    rows: Seq<Credential>,
    card: SimCard,
    uid: u32,
    sector: u8,
)
    requires
        card.wf(),
        card.fault != FaultMode::FailAuth,
        card.fault != FaultMode::FailRead,
        lookup(old_rows, card.tag_id@) is None,
        enrolled(old_rows, rows, card, uid, sector),
    ensures
        identify_spec(rows, card, card.tag_id@) == Ok::<u32, AuthError<DatabaseError>>(uid),
{
    let c = rows.last();
    assert(rows =~= old_rows.push(c));
    lemma_lookup_push(old_rows, card.tag_id@, c);
    assert(lookup(rows, card.tag_id@) == Some(c));
}

/// No-false-grant law: whenever verification grants, the granted user is the
/// one of a finalized stored row for that tag whose recorded secret is
/// byte-for-byte what the card's enrolled sector holds.
pub proof fn lemma_grant_is_true_match(rows: Seq<Credential>, card: SimCard, id: Seq<u8>, u: u32)
    requires
        identify_spec(rows, card, id) == Ok::<u32, AuthError<DatabaseError>>(u),
    ensures
        lookup(rows, id) is Some,
        ({
            let c = lookup(rows, id).unwrap();
            c.user_id == u && c.auth_method == 1 && auth_data_wf(c.auth_data@) && card.blocks@[
                ad_sector(c.auth_data@) as int
            ]@ == ad_secret(c.auth_data@) && card.keys@[ad_sector(c.auth_data@) as int]@ == ad_key(
                c.auth_data@,
            )
        }),
{
}

/// Tamper-rejection law: if the card's enrolled sector holds anything but
/// the recorded secret — a single flipped bit included — verification never
/// grants; when the handshake itself goes through, it denies with a
/// credential mismatch.
pub proof fn lemma_tamper_rejected(rows: Seq<Credential>, card: SimCard, id: Seq<u8>, c: Credential)
    requires
        lookup(rows, id) == Some(c),
        auth_data_wf(c.auth_data@),
        card.blocks@[ad_sector(c.auth_data@) as int]@ != ad_secret(c.auth_data@),
    ensures
        identify_spec(rows, card, id) is Err,
        (c.auth_method == 1 && card.fault == FaultMode::Healthy && card.keys@[ad_sector(
            c.auth_data@,
        ) as int]@ == ad_key(c.auth_data@)) ==> identify_spec(rows, card, id) == Err::<
            u32,
            AuthError<DatabaseError>,
        >(AuthError::InvalidCredentials),
{
}

/// Wrong-key-isolation law: a recorded key other than the one on the card
/// fails the handshake with a communication-class outcome, and the card's
/// block contents never reach the decision: any two cards that differ only
/// in their data blocks verify identically.
pub proof fn lemma_wrong_key_isolated(
    rows: Seq<Credential>,
    card: SimCard,
    other: SimCard,
    id: Seq<u8>,
    c: Credential,
)
    requires
        lookup(rows, id) == Some(c),
        c.auth_method == 1,
        auth_data_wf(c.auth_data@),
        card.fault != FaultMode::FailAuth,
        ad_key(c.auth_data@) != card.keys@[ad_sector(c.auth_data@) as int]@,
        other.keys@ == card.keys@,
        other.fault == card.fault,
    ensures
        identify_spec(rows, card, id) == Err::<u32, AuthError<DatabaseError>>(
            AuthError::Tag(CommError::Rejected),
        ),
        identify_spec(rows, other, id) == identify_spec(rows, card, id),
{
}

/// Crash-safety law: an enrollment interrupted after the provisional insert
/// and before finalization leaves exactly one row for that tag, provisional,
/// and verification against that store never grants — whatever any card
/// holds.
pub proof fn lemma_crash_safe_enrollment(
    old_rows: Seq<Credential>,
    rows: Seq<Credential>,
    id: Seq<u8>,
    uid: u32,
    sector: u8,
    card: SimCard,
)
    requires
        lookup(old_rows, id) is None,
        provisional_appended(old_rows, rows, id, uid, sector),
    ensures
        count_matching(rows, id) == 1,
        rows.last().auth_method == 0,
        identify_spec(rows, card, id) == Err::<u32, AuthError<DatabaseError>>(
            AuthError::InvalidCredentials,
        ),
{
    let c = rows.last();
    assert(rows =~= old_rows.push(c));
    lemma_lookup_push(old_rows, id, c);
    assert(lookup(rows, id) == Some(c));
    lemma_lookup_none_count(old_rows, id);
    lemma_count_push(old_rows, id, c);
}

} // verus!
