use vstd::prelude::*;
use crate::credential::{Credential, AUTH_DATA_LEN};
use crate::error::StoreError;

verus! {

/// First stored credential carrying the given tag identifier, in insertion
/// order; the primary lookup of verification.
pub open spec fn lookup(rows: Seq<Credential>, id: Seq<u8>) -> Option<Credential>
    decreases rows.len(),
{
    if rows.len() == 0 {
        None
    } else if rows[0].tag_id@ == id {
        Some(rows[0])
    } else {
        lookup(rows.subrange(1, rows.len() as int), id)
    }
}

/// How many stored credentials carry the given tag identifier.
pub open spec fn count_matching(rows: Seq<Credential>, id: Seq<u8>) -> nat
    decreases rows.len(),
{
    if rows.len() == 0 {
        0
    } else {
        count_matching(rows.subrange(1, rows.len() as int), id) + if rows[0].tag_id@ == id {
            1nat
        } else {
            0nat
        }
    }
}

/// Skipping a non-matching head row does not change the lookup result.
pub proof fn lemma_lookup_skip(rows: Seq<Credential>, id: Seq<u8>, i: int)
    requires
        0 <= i <= rows.len(),
        forall|k: int| 0 <= k < i ==> rows[k].tag_id@ != id,
    ensures
        lookup(rows, id) == lookup(rows.subrange(i, rows.len() as int), id),
    decreases i,
{
    if i == 0 {
        assert(rows.subrange(0, rows.len() as int) =~= rows);
    } else {
        lemma_lookup_skip(rows, id, i - 1);
        let s1 = rows.subrange(i - 1, rows.len() as int);
        let s2 = rows.subrange(i, rows.len() as int);
        assert(s1[0] == rows[i - 1]);
        assert(s1.subrange(1, s1.len() as int) =~= s2);
        assert(lookup(s1, id) == lookup(s2, id));
    }
}

/// Appending a row leaves earlier matches in place: the lookup changes only
/// where no earlier row carried the identifier.
pub proof fn lemma_lookup_push(rows: Seq<Credential>, id: Seq<u8>, c: Credential)
    ensures
        lookup(rows.push(c), id) == if lookup(rows, id) is Some {
            lookup(rows, id)
        } else if c.tag_id@ == id {
            Some(c)
        } else {
            None
        },
    decreases rows.len(),
{
    let p = rows.push(c);
    if rows.len() == 0 {
        assert(p.len() == 1 && p[0] == c);
        assert(lookup(rows, id) is None);
        if c.tag_id@ != id {
            assert(p.subrange(1, p.len() as int) =~= Seq::<Credential>::empty());
            assert(lookup(p.subrange(1, p.len() as int), id) is None);
            assert(lookup(p, id) is None);
        } else {
            assert(lookup(p, id) == Some(c));
        }
    } else {
        assert(p[0] == rows[0]);
        if rows[0].tag_id@ != id {
            let tail = rows.subrange(1, rows.len() as int);
            lemma_lookup_push(tail, id, c);
            assert(p.subrange(1, p.len() as int) =~= tail.push(c));
            assert(lookup(p, id) == lookup(tail.push(c), id));
            assert(lookup(rows, id) == lookup(tail, id));
        } else {
            assert(lookup(p, id) == Some(rows[0]));
            assert(lookup(rows, id) == Some(rows[0]));
        }
    }
}

/// Appending a row adds its match to the count.
pub proof fn lemma_count_push(rows: Seq<Credential>, id: Seq<u8>, c: Credential)
    ensures
        count_matching(rows.push(c), id) == count_matching(rows, id) + if c.tag_id@ == id {
            1nat
        } else {
            0nat
        },
    decreases rows.len(),
{
    let p = rows.push(c);
    if rows.len() == 0 {
        assert(p.len() == 1 && p[0] == c);
        assert(p.subrange(1, p.len() as int) =~= Seq::<Credential>::empty());
        assert(count_matching(p.subrange(1, p.len() as int), id) == 0);
        assert(count_matching(rows, id) == 0);
    } else {
        assert(p[0] == rows[0]);
        let tail = rows.subrange(1, rows.len() as int);
        lemma_count_push(tail, id, c);
        assert(p.subrange(1, p.len() as int) =~= tail.push(c));
        assert(count_matching(p, id) == count_matching(tail.push(c), id) + if rows[0].tag_id@ == id { 1nat } else { 0nat });
        assert(count_matching(rows, id) == count_matching(tail, id) + if rows[0].tag_id@ == id { 1nat } else { 0nat });
    }
}

/// A lookup that finds nothing means no row matches at all.
pub proof fn lemma_lookup_none_count(rows: Seq<Credential>, id: Seq<u8>)
    requires
        lookup(rows, id) is None,
    ensures
        count_matching(rows, id) == 0,
    decreases rows.len(),
{
    if rows.len() > 0 {
        lemma_lookup_none_count(rows.subrange(1, rows.len() as int), id);
    }
}

/// A lookup that finds nothing means no single row carries the identifier.
pub proof fn lemma_lookup_none_no_match(rows: Seq<Credential>, id: Seq<u8>)
    requires
        lookup(rows, id) is None,
    ensures
        forall|k: int| 0 <= k < rows.len() ==> rows[k].tag_id@ != id,
    decreases rows.len(),
{
    if rows.len() > 0 {
        let tail = rows.subrange(1, rows.len() as int);
        lemma_lookup_none_no_match(tail, id);
        assert(forall|k: int| 1 <= k < rows.len() ==> rows[k] == tail[k - 1]);
    }
}

/// In-memory credential store: one row per enrolled tag, in insertion order.
/// Every operation goes against the rows directly; there is no cache.
pub struct CredentialStore {
    rows: Vec<Credential>,
}

impl CredentialStore {
    /// The stored rows, oldest first.
    pub closed spec fn rows(&self) -> Seq<Credential> {
        self.rows@
    }

    /// Creates an empty store.
    pub fn new() -> (s: CredentialStore)
        ensures
            s.rows() == Seq::<Credential>::empty(),
    {
        CredentialStore { rows: Vec::new() }
    }

    /// Appends a new row. Refuses a credential whose `auth_data` is not
    /// exactly 23 bytes, and one whose tag identifier is already stored (at
    /// most one live credential per tag); the store is unchanged in both
    /// cases.
    pub fn insert(&mut self, c: Credential) -> (r: Result<(), StoreError>)
        ensures
            match r {
                Ok(()) => c.auth_data@.len() == AUTH_DATA_LEN && lookup(
                    old(self).rows(),
                    c.tag_id@,
                ) is None && final(self).rows() == old(self).rows().push(c),
                Err(e) => final(self).rows() == old(self).rows() && ((e
                    == StoreError::InvalidEncoding && c.auth_data@.len() != AUTH_DATA_LEN) || (e
                    == StoreError::Duplicate && c.auth_data@.len() == AUTH_DATA_LEN && lookup(
                    old(self).rows(),
                    c.tag_id@,
                ) is Some)),
            },
    {
        if c.auth_data.len() != AUTH_DATA_LEN {
            return Err(StoreError::InvalidEncoding);
        }
        if self.find_by_tag_id(c.tag_id.as_slice()).is_some() {
            return Err(StoreError::Duplicate);
        }
        self.rows.push(c);
        Ok(())
    }

    /// Replaces the first row carrying `c.tag_id` with `c` (how enrollment
    /// finalizes a provisional row). Refuses a malformed `auth_data`, and
    /// reports when no row carries the identifier; the store is unchanged in
    /// both cases.
    pub fn update(&mut self, c: Credential) -> (r: Result<(), StoreError>)
        ensures
            match r {
                Ok(()) => c.auth_data@.len() == AUTH_DATA_LEN && exists|i: int|
                    0 <= i < old(self).rows().len() && #[trigger] old(self).rows()[i].tag_id@
                        == c.tag_id@ && (forall|k: int|
                        0 <= k < i ==> old(self).rows()[k].tag_id@ != c.tag_id@)
                        && final(self).rows() == old(self).rows().update(i, c),
                Err(e) => final(self).rows() == old(self).rows() && ((e == StoreError::InvalidEncoding
                    && c.auth_data@.len() != AUTH_DATA_LEN) || (e == StoreError::NotFound
                    && c.auth_data@.len() == AUTH_DATA_LEN && lookup(old(self).rows(), c.tag_id@)
                    is None)),
            },
    {
        if c.auth_data.len() != AUTH_DATA_LEN {
            return Err(StoreError::InvalidEncoding);
        }
        let n = self.rows.len();
        let mut i: usize = 0;
        while i < n
            invariant
                0 <= i <= n,
                n == self.rows@.len(),
                self.rows@ == old(self).rows@,
                c.auth_data@.len() == AUTH_DATA_LEN,
                forall|k: int| 0 <= k < i ==> self.rows@[k].tag_id@ != c.tag_id@,
            decreases n - i,
        {
            if crate::bytes_eq(self.rows[i].tag_id.as_slice(), c.tag_id.as_slice()) {
                self.rows.set(i, c);
                return Ok(());
            }
            i += 1;
        }
        proof {
            lemma_lookup_skip(self.rows@, c.tag_id@, n as int);
            assert(self.rows@.subrange(n as int, n as int) =~= Seq::<Credential>::empty());
        }
        Err(StoreError::NotFound)
    }

    /// Looks a credential up by tag identifier: the first matching row in
    /// insertion order, or nothing.
    pub fn find_by_tag_id(&self, id: &[u8]) -> (r: Option<&Credential>)
        ensures
            match r {
                Some(c) => lookup(self.rows(), id@) == Some(*c),
                None => lookup(self.rows(), id@) is None,
            },
    {
        let n = self.rows.len();
        let mut i: usize = 0;
        while i < n
            invariant
                0 <= i <= n,
                n == self.rows@.len(),
                forall|k: int| 0 <= k < i ==> self.rows@[k].tag_id@ != id@,
            decreases n - i,
        {
            if crate::bytes_eq(self.rows[i].tag_id.as_slice(), id) {
                proof {
                    lemma_lookup_skip(self.rows@, id@, i as int);
                    let s = self.rows@.subrange(i as int, n as int);
                    assert(s[0] == self.rows@[i as int]);
                }
                return Some(&self.rows[i]);
            }
            i += 1;
        }
        proof {
            lemma_lookup_skip(self.rows@, id@, n as int);
            assert(self.rows@.subrange(n as int, n as int) =~= Seq::<Credential>::empty());
        }
        None
    }

    /// Diagnostic enumeration of every stored row, oldest first.
    pub fn list_all(&self) -> (r: &Vec<Credential>)
        ensures
            r@ == self.rows(),
    {
        &self.rows
    }
}

} // verus!
