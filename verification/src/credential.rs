use vstd::prelude::*;
use crate::error::DatabaseError;

verus! {

/// Number of key-protected sectors on the supported card type.
pub const SECTOR_COUNT: u8 = 16;

/// Length in bytes of a sector access key.
pub const KEY_LEN: usize = 6;

/// Length in bytes of the secret value held in the sector's data block.
pub const SECRET_LEN: usize = 16;

/// Length in bytes of a card memory block, and so of the sector trailer.
pub const BLOCK_LEN: usize = 16;

/// Length of a packed `auth_data` payload: one sector byte, a 6-byte sector
/// key, and a 16-byte secret.
pub const AUTH_DATA_LEN: usize = 23;

/// The sector that enrollment provisions (fixed policy).
pub const ENROLL_SECTOR: u8 = 1;

/// One enrolled credential: one row of the persistent store.
pub struct Credential {
    /// Card-reported identifier, 4 to 10 bytes; the lookup key.
    pub tag_id: Vec<u8>,
    /// Opaque external identity reference.
    pub user_id: u32,
    /// Lifecycle marker: 0 = provisional (mid-enrollment, never grants
    /// access), 1 = finalized.
    pub auth_method: u8,
    /// Packed sector index, sector key and secret; exactly 23 bytes.
    pub auth_data: Vec<u8>,
}

/// A card-reported tag identifier is 4 to 10 bytes long.
pub open spec fn valid_tag_id(id: Seq<u8>) -> bool {
    4 <= id.len() <= 10
}

/// A packed `auth_data` payload has exactly 23 bytes.
pub open spec fn auth_data_len_ok(d: Seq<u8>) -> bool {
    d.len() == AUTH_DATA_LEN
}

/// Sector index of a packed `auth_data` payload (byte 0).
pub open spec fn ad_sector(d: Seq<u8>) -> u8
    recommends
        auth_data_len_ok(d),
{
    d[0]
}

/// Sector key of a packed `auth_data` payload (bytes 1..7).
pub open spec fn ad_key(d: Seq<u8>) -> Seq<u8>
    recommends
        auth_data_len_ok(d),
{
    d.subrange(1, 7)
}

/// Secret value of a packed `auth_data` payload (bytes 7..23).
pub open spec fn ad_secret(d: Seq<u8>) -> Seq<u8>
    recommends
        auth_data_len_ok(d),
{
    d.subrange(7, 23)
}

/// A packed `auth_data` payload decodes cleanly: right length and a sector
/// index the card actually has.
pub open spec fn auth_data_wf(d: Seq<u8>) -> bool {
    auth_data_len_ok(d) && ad_sector(d) < SECTOR_COUNT
}

/// A decoded `auth_data` payload.
#[derive(Debug, PartialEq, Eq)]
pub struct DecodedAuth {
    pub sector: u8,
    pub key: Vec<u8>,
    pub secret: Vec<u8>,
}

/// Copies the bytes `v[start..end]` into a fresh vector.
pub fn copy_range(v: &[u8], start: usize, end: usize) -> (r: Vec<u8>)
    requires
        start <= end <= v@.len(),
    ensures
        r@ == v@.subrange(start as int, end as int),
{
    let mut r: Vec<u8> = Vec::new();
    let mut i: usize = start;
    while i < end
        invariant
            start <= i <= end <= v@.len(),
            r@ == v@.subrange(start as int, i as int),
        decreases end - i,
    {
        r.push(v[i]);
        proof {
            assert(r@ =~= v@.subrange(start as int, i + 1 as int));
        }
        i += 1;
    }
    r
}

/// Copies a whole byte slice into a fresh vector.
pub fn copy_bytes(v: &[u8]) -> (r: Vec<u8>)
    ensures
        r@ == v@,
{
    let r = copy_range(v, 0, v.len());
    proof {
        assert(v@.subrange(0, v@.len() as int) =~= v@);
    }
    r
}

/// Bounds-checked view of a slice's 6-byte prefix: a copy when the slice is
/// long enough, a clean failure otherwise.
pub fn to_fixed6(s: &[u8]) -> (r: Option<Vec<u8>>)
    ensures
        match r {
            Some(v) => s@.len() >= 6 && v@ == s@.subrange(0, 6),
            None => s@.len() < 6,
        },
{
    if s.len() >= 6 {
        Some(copy_range(s, 0, 6))
    } else {
        None
    }
}

/// Bounds-checked view of a slice's 16-byte prefix: a copy when the slice is
/// long enough, a clean failure otherwise.
pub fn to_fixed16(s: &[u8]) -> (r: Option<Vec<u8>>)
    ensures
        match r {
            Some(v) => s@.len() >= 16 && v@ == s@.subrange(0, 16),
            None => s@.len() < 16,
        },
{
    if s.len() >= 16 {
        Some(copy_range(s, 0, 16))
    } else {
        None
    }
}

/// Unpacks a persisted `auth_data` payload, failing with a distinct
/// data-integrity error on a wrong length or an out-of-range sector index.
pub fn decode_auth_data(d: &Vec<u8>) -> (r: Result<DecodedAuth, DatabaseError>)
    ensures
        match r {
            Ok(da) => auth_data_wf(d@) && da.sector == ad_sector(d@) && da.key@ == ad_key(d@)
                && da.secret@ == ad_secret(d@),
            Err(e) => !auth_data_wf(d@) && ((e == DatabaseError::InvalidLength && !auth_data_len_ok(
                d@,
            )) || (e == DatabaseError::InvalidSector && auth_data_len_ok(d@) && ad_sector(d@)
                >= SECTOR_COUNT)),
        },
{
    if d.len() != AUTH_DATA_LEN {
        return Err(DatabaseError::InvalidLength);
    }
    let sector = d[0];
    if sector >= SECTOR_COUNT {
        return Err(DatabaseError::InvalidSector);
    }
    let key = copy_range(d.as_slice(), 1, 7);
    let secret = copy_range(d.as_slice(), 7, 23);
    Ok(DecodedAuth { sector, key, secret })
}

/// Packs a sector index, sector key and secret into the 23-byte `auth_data`
/// layout that `decode_auth_data` reads back.
pub fn encode_auth_data(sector: u8, key: &Vec<u8>, secret: &Vec<u8>) -> (r: Vec<u8>)
    requires
        sector < SECTOR_COUNT,
        key@.len() == KEY_LEN,
        secret@.len() == SECRET_LEN,
    ensures
        auth_data_wf(r@),
        ad_sector(r@) == sector,
        ad_key(r@) == key@,
        ad_secret(r@) == secret@,
{
    let mut r: Vec<u8> = Vec::new();
    r.push(sector);
    let mut i: usize = 0;
    while i < KEY_LEN
        invariant
            0 <= i <= KEY_LEN,
            key@.len() == KEY_LEN,
            r@.len() == 1 + i,
            r@[0] == sector,
            r@.subrange(1, 1 + i as int) == key@.subrange(0, i as int),
        decreases KEY_LEN - i,
    {
        r.push(key[i]);
        proof {
            assert(r@.subrange(1, 1 + (i + 1) as int) =~= key@.subrange(0, (i + 1) as int));
        }
        i += 1;
    }
    let mut j: usize = 0;
    while j < SECRET_LEN
        invariant
            0 <= j <= SECRET_LEN,
            secret@.len() == SECRET_LEN,
            key@.len() == KEY_LEN,
            r@.len() == 7 + j,
            r@[0] == sector,
            r@.subrange(1, 7) == key@,
            r@.subrange(7, 7 + j as int) == secret@.subrange(0, j as int),
        decreases SECRET_LEN - j,
    {
        r.push(secret[j]);
        proof {
            assert(r@.subrange(1, 7) =~= key@);
            assert(r@.subrange(7, 7 + (j + 1) as int) =~= secret@.subrange(0, (j + 1) as int));
        }
        j += 1;
    }
    proof {
        assert(secret@.subrange(0, SECRET_LEN as int) =~= secret@);
        assert(ad_key(r@) =~= key@);
        assert(ad_secret(r@) =~= secret@);
    }
    r
}

} // verus!
