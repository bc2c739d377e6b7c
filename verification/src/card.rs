use vstd::prelude::*;
use crate::credential::{copy_bytes, valid_tag_id, BLOCK_LEN, KEY_LEN, SECTOR_COUNT};
use crate::error::CommError;

verus! {

/// Fault injected into the simulated radio channel: the named exchange fails
/// with a communication error, everything else behaves normally.
#[derive(Clone, Copy, PartialEq, Eq, Structural, Debug)]
pub enum FaultMode {
    Healthy,
    FailAuth,
    FailRead,
    FailBlockWrite,
    FailKeyWrite,
}

/// Simulated contactless card: one key-protected data block per sector, the
/// key role A of each sector, and an injectable channel fault. This is the
/// model the enrollment and verification protocols are verified against; the
/// physical reader binding mirrors its contracts.
pub struct SimCard {
    /// Card-reported identifier, 4 to 10 bytes.
    pub tag_id: Vec<u8>,
    /// Key A of each sector; `SECTOR_COUNT` entries of 6 bytes each.
    pub keys: Vec<Vec<u8>>,
    /// Data block 0 of each sector; `SECTOR_COUNT` entries of 16 bytes each.
    pub blocks: Vec<Vec<u8>>,
    /// Channel fault injected into the next exchanges.
    pub fault: FaultMode,
}

/// Witness that one sector of one card interaction passed the key handshake;
/// only `SimCard::authenticate_sector` builds it.
pub struct AuthenticatedSector {
    sector: u8,
}

impl AuthenticatedSector {
    /// The sector the handshake authorized.
    pub closed spec fn sector(&self) -> u8 {
        self.sector
    }

    /// The sector the handshake authorized, as a runtime value.
    pub fn sector_index(&self) -> (s: u8)
        ensures
            s == self.sector(),
    {
        self.sector
    }
}

impl SimCard {
    /// Structural soundness of the model: right identifier, key and block
    /// lengths everywhere.
    pub open spec fn wf(&self) -> bool {
        &&& valid_tag_id(self.tag_id@)
        &&& self.keys@.len() == SECTOR_COUNT
        &&& self.blocks@.len() == SECTOR_COUNT
        &&& forall|i: int| 0 <= i < SECTOR_COUNT ==> (#[trigger] self.keys@[i])@.len() == KEY_LEN
        &&& forall|i: int|
            0 <= i < SECTOR_COUNT ==> (#[trigger] self.blocks@[i])@.len() == BLOCK_LEN
    }

    /// Builds a healthy card whose sectors all hold the factory-default key
    /// (six 0xFF bytes) and a zeroed data block: a card fresh from the
    /// factory, ready for enrollment.
    pub fn factory_fresh(tag_id: Vec<u8>) -> (c: SimCard)
        requires
            valid_tag_id(tag_id@),
        ensures
            c.wf(),
            c.tag_id@ == tag_id@,
            c.fault == FaultMode::Healthy,
            forall|i: int|
                0 <= i < SECTOR_COUNT ==> (#[trigger] c.keys@[i])@ == factory_key(),
            forall|i: int|
                0 <= i < SECTOR_COUNT ==> (#[trigger] c.blocks@[i])@ == Seq::new(
                    BLOCK_LEN as nat,
                    |k: int| 0u8,
                ),
    {
        let mut keys: Vec<Vec<u8>> = Vec::new();
        let mut blocks: Vec<Vec<u8>> = Vec::new();
        let mut i: usize = 0;
        while i < SECTOR_COUNT as usize
            invariant
                0 <= i <= SECTOR_COUNT,
                keys@.len() == i,
                blocks@.len() == i,
                forall|k: int| 0 <= k < i ==> (#[trigger] keys@[k])@ == factory_key(),
                forall|k: int|
                    0 <= k < i ==> (#[trigger] blocks@[k])@ == Seq::new(
                        BLOCK_LEN as nat,
                        |m: int| 0u8,
                    ),
            decreases SECTOR_COUNT - i,
        {
            let key = factory_default_key();
            let mut block: Vec<u8> = Vec::new();
            let mut j: usize = 0;
            while j < BLOCK_LEN
                invariant
                    0 <= j <= BLOCK_LEN,
                    block@.len() == j,
                    forall|m: int| 0 <= m < j ==> block@[m] == 0u8,
                decreases BLOCK_LEN - j,
            {
                block.push(0u8);
                j += 1;
            }
            proof {
                assert(block@ =~= Seq::new(BLOCK_LEN as nat, |m: int| 0u8));
            }
            keys.push(key);
            blocks.push(block);
            i += 1;
        }
        SimCard { tag_id, keys, blocks, fault: FaultMode::Healthy }
    }

    /// Performs the sector key handshake with key role A. The card rejects a
    /// key other than the one the sector holds; an injected channel fault
    /// fails the exchange outright. In both failure cases no witness and no
    /// data comes back.
    pub fn authenticate_sector(&self, sector: u8, key: &Vec<u8>) -> (r: Result<
        AuthenticatedSector,
        CommError,
    >)
        requires
            self.wf(),
            sector < SECTOR_COUNT,
            key@.len() == KEY_LEN,
        ensures
            match r {
                Ok(a) => self.fault != FaultMode::FailAuth
                    && key@ == self.keys@[sector as int]@ && a.sector() == sector,
                Err(e) => (e == CommError::Radio && self.fault == FaultMode::FailAuth) || (e
                    == CommError::Rejected && self.fault != FaultMode::FailAuth && key@
                    != self.keys@[sector as int]@),
            },
    {
        if matches!(self.fault, FaultMode::FailAuth) {
            return Err(CommError::Radio);
        }
        if crate::bytes_eq(key.as_slice(), self.keys[sector as usize].as_slice()) {
            Ok(AuthenticatedSector { sector })
        } else {
            Err(CommError::Rejected)
        }
    }

    /// Reads the 16-byte data block of an authenticated sector; an injected
    /// channel fault fails the exchange instead.
    pub fn read_block(&self, auth: &AuthenticatedSector) -> (r: Result<Vec<u8>, CommError>)
        requires
            self.wf(),
            auth.sector() < SECTOR_COUNT,
        ensures
            match r {
                Ok(b) => self.fault != FaultMode::FailRead
                    && b@ == self.blocks@[auth.sector() as int]@,
                Err(e) => e == CommError::Radio && self.fault == FaultMode::FailRead,
            },
    {
        if matches!(self.fault, FaultMode::FailRead) {
            return Err(CommError::Radio);
        }
        Ok(copy_bytes(self.blocks[auth.sector_index() as usize].as_slice()))
    }

    /// Writes the 16-byte data block of an authenticated sector; an injected
    /// channel fault fails the exchange and leaves the card unchanged.
    pub fn write_block(&mut self, auth: &AuthenticatedSector, data: &Vec<u8>) -> (r: Result<
        (),
        CommError,
    >)
        requires
            old(self).wf(),
            auth.sector() < SECTOR_COUNT,
            data@.len() == BLOCK_LEN,
        ensures
            final(self).wf(),
            final(self).tag_id@ == old(self).tag_id@,
            final(self).keys@ == old(self).keys@,
            final(self).fault == old(self).fault,
            match r {
                Ok(()) => old(self).fault != FaultMode::FailBlockWrite && final(self).blocks@.len()
                    == SECTOR_COUNT && (forall|i: int|
                    0 <= i < SECTOR_COUNT && i != auth.sector() ==> (
                    #[trigger] final(self).blocks@[i])@ == old(self).blocks@[i]@) && final(self).blocks@[auth.sector() as int]@ == data@,
                Err(e) => e == CommError::Radio && old(self).fault == FaultMode::FailBlockWrite
                    && final(self).blocks@ == old(self).blocks@,
            },
    {
        if matches!(self.fault, FaultMode::FailBlockWrite) {
            return Err(CommError::Radio);
        }
        let copy = copy_bytes(data.as_slice());
        self.blocks.set(auth.sector_index() as usize, copy);
        Ok(())
    }

    /// Overwrites the sector trailer of an authenticated sector: from then on
    /// the sector's key A is the trailer's first six bytes. Destructive and
    /// irreversible — the old key is gone. An injected channel fault fails
    /// the exchange and leaves the card unchanged.
    pub fn write_keys(&mut self, auth: &AuthenticatedSector, trailer: &Vec<u8>) -> (r: Result<
        (),
        CommError,
    >)
        requires
            old(self).wf(),
            auth.sector() < SECTOR_COUNT,
            trailer@.len() == BLOCK_LEN,
        ensures
            final(self).wf(),
            final(self).tag_id@ == old(self).tag_id@,
            final(self).blocks@ == old(self).blocks@,
            final(self).fault == old(self).fault,
            match r {
                Ok(()) => old(self).fault != FaultMode::FailKeyWrite && final(self).keys@.len()
                    == SECTOR_COUNT && (forall|i: int|
                    0 <= i < SECTOR_COUNT && i != auth.sector() ==> (
                    #[trigger] final(self).keys@[i])@ == old(self).keys@[i]@) && final(self).keys@[auth.sector() as int]@ == trailer@.subrange(0, KEY_LEN as int),
                Err(e) => e == CommError::Radio && old(self).fault == FaultMode::FailKeyWrite
                    && final(self).keys@ == old(self).keys@,
            },
    {
        if matches!(self.fault, FaultMode::FailKeyWrite) {
            return Err(CommError::Radio);
        }
        let new_key = crate::credential::copy_range(trailer.as_slice(), 0, KEY_LEN);
        self.keys.set(auth.sector_index() as usize, new_key);
        Ok(())
    }
}

/// The factory-default key A: six 0xFF bytes.
pub open spec fn factory_key() -> Seq<u8> {
    Seq::new(KEY_LEN as nat, |i: int| 0xFFu8)
}

/// Builds the factory-default key A as a runtime value.
pub fn factory_default_key() -> (k: Vec<u8>)
    ensures
        k@ == factory_key(),
        k@.len() == KEY_LEN,
{
    let mut k: Vec<u8> = Vec::new();
    let mut i: usize = 0;
    while i < KEY_LEN
        invariant
            0 <= i <= KEY_LEN,
            k@.len() == i,
            forall|m: int| 0 <= m < i ==> k@[m] == 0xFFu8,
        decreases KEY_LEN - i,
    {
        k.push(0xFFu8);
        i += 1;
    }
    proof {
        assert(k@ =~= factory_key());
    }
    k
}

} // verus!
