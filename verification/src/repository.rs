//! The record repository: a densely packed array of fixed-width records
//! inside one externally provided byte buffer.  The offset of a slot is
//! `slot_id * NFT_RECORD_SIZE`; a write past the end of the buffer is a
//! typed error, never a wild store, and a read hands a record out only when
//! the stored asset key matches the one the caller presented.

use vstd::prelude::*;
use vstd::slice::slice_subrange;

use crate::error::HeroError;
use crate::keys::Key;
use crate::record::{spec_decode, spec_encode, NFTRecord, RecordView, NFT_RECORD_SIZE};

verus! {

/// Slot count of the reference policy; a larger repository takes a larger
/// buffer at creation.
pub const MAX_SLOTS: usize = 20;

/// The fixed-slot record store over one byte buffer.
pub struct Repository {
    pub data: Vec<u8>,
}

/// How a repository changes when `rec` is written: exactly the bytes of
/// `rec`'s own slot are replaced by its binary form, every other byte — and
/// so every other record — is bit-identical before and after.
pub open spec fn wrote(pre: Repository, post: Repository, rec: RecordView) -> bool {
    &&& post.data@.len() == pre.data@.len()
    &&& post.record_at(rec.hero_id as int) == Some(rec)
    &&& post.slot_bytes(rec.hero_id as int) == spec_encode(rec)
    &&& forall|i: int|
        0 <= i < pre.data@.len() && !(rec.hero_id as int * NFT_RECORD_SIZE <= i < (
        rec.hero_id as int + 1) * NFT_RECORD_SIZE) ==> post.data@[i] == pre.data@[i]
    &&& forall|s: int|
        0 <= s && s != rec.hero_id as int && pre.slot_in_range(s) ==> post.record_at(s)
            == pre.record_at(s)
}

impl Repository {
    /// The byte range of `slot` lies inside the buffer.
    pub open spec fn slot_in_range(&self, slot: int) -> bool {
        &&& 0 <= slot
        &&& (slot + 1) * NFT_RECORD_SIZE <= self.data@.len()
    }

    /// The raw bytes of `slot`.
    pub open spec fn slot_bytes(&self, slot: int) -> Seq<u8> {
        self.data@.subrange(slot * NFT_RECORD_SIZE, (slot + 1) * NFT_RECORD_SIZE)
    }

    /// The record stored at `slot`, if those bytes decode.
    pub open spec fn record_at(&self, slot: int) -> Option<RecordView> {
        spec_decode(self.slot_bytes(slot))
    }

    /// Which error `read` raises, when it raises one.
    pub open spec fn read_rejection(&self, slot: int, key: Seq<u8>) -> HeroError {
        if !self.slot_in_range(slot) {
            HeroError::SlotOutOfRange
        } else if self.record_at(slot) is None {
            HeroError::InvalidAccountData
        } else {
            HeroError::InvalidNFTKey
        }
    }

    /// A zeroed repository with room for `num_slots` records.
    pub fn new(num_slots: u8) -> (r: Repository)
        ensures
            r.data@ == Seq::new(num_slots as nat * NFT_RECORD_SIZE as nat, |i: int| 0u8),
    {
        let n: usize = num_slots as usize * NFT_RECORD_SIZE;
        let mut data: Vec<u8> = Vec::new();
        let mut i: usize = 0;
        while i < n
            invariant
                i <= n,
                data@ == Seq::new(i as nat, |j: int| 0u8),
            decreases n - i,
        {
            data.push(0u8);
            proof {
                assert(data@ =~= Seq::new((i + 1) as nat, |j: int| 0u8));
            }
            i += 1;
        }
        Repository { data }
    }

    /// A repository with the reference capacity of `MAX_SLOTS` slots.
    pub fn standard() -> (r: Repository)
        ensures
            r.data@ == Seq::new(MAX_SLOTS as nat * NFT_RECORD_SIZE as nat, |i: int| 0u8),
    {
        Repository::new(MAX_SLOTS as u8)
    }

    /// Serializes `record` into its slot.  Fails, and leaves every byte
    /// untouched, when the buffer is smaller than `(slot_id + 1) *
    /// NFT_RECORD_SIZE`; otherwise it replaces exactly that slot's bytes,
    /// so every neighboring record is bit-identical afterwards.
    pub fn write(&mut self, record: &NFTRecord) -> (r: Result<(), HeroError>)
        requires
            record.wf(),
        ensures
            r is Ok <==> old(self).slot_in_range(record.hero_id as int),
            match r {
                Ok(()) => wrote(*old(self), *final(self), record@),
                Err(e) => e == HeroError::SlotOutOfRange && *final(self) == *old(self),
            },
    {
        let start: usize = record.hero_id as usize * NFT_RECORD_SIZE;
        let end: usize = start + NFT_RECORD_SIZE;
        if end > self.data.len() {
            return Err(HeroError::SlotOutOfRange);
        }
        let enc = record.encode();
        let mut i: usize = 0;
        while i < NFT_RECORD_SIZE
            invariant
                i <= NFT_RECORD_SIZE,
                start == record.hero_id as int * NFT_RECORD_SIZE,
                end == start + NFT_RECORD_SIZE,
                end <= self.data@.len(),
                enc@ == spec_encode(record@),
                enc@.len() == NFT_RECORD_SIZE,
                self.data@.len() == old(self).data@.len(),
                forall|k: int|
                    0 <= k < old(self).data@.len() && !(start <= k < start + i)
                        ==> self.data@[k] == old(self).data@[k],
                forall|k: int| 0 <= k < i ==> self.data@[start + k] == enc@[k],
            decreases NFT_RECORD_SIZE - i,
        {
            let b = enc[i];
            self.data[start + i] = b;
            i += 1;
        }
        proof {
            let slot = record.hero_id as int;
            assert(self.slot_bytes(slot) =~= spec_encode(record@));
            crate::record::lemma_record_roundtrip(record@);
            assert forall|s: int|
                0 <= s && s != slot && old(self).slot_in_range(s) implies self.record_at(s)
                == old(self).record_at(s) by {
                assert(self.slot_bytes(s) =~= old(self).slot_bytes(s));
            }
        }
        Ok(())
    }

    /// Loads the record at `hero_id`, enforcing the repository's integrity
    /// check: the stored asset key must equal the one the caller presented,
    /// else the record is unusable and `InvalidNFTKey` comes back.
    pub fn read(&self, hero_id: u8, key_nft: &Key) -> (r: Result<NFTRecord, HeroError>)
        ensures
            r is Ok <==> (self.slot_in_range(hero_id as int) && self.record_at(hero_id as int)
                is Some && self.record_at(hero_id as int).unwrap().key_nft == key_nft@),
            match r {
                Ok(rec) => self.record_at(hero_id as int) == Some(rec@) && rec.wf(),
                Err(e) => e == self.read_rejection(hero_id as int, key_nft@),
            },
    {
        let start: usize = hero_id as usize * NFT_RECORD_SIZE;
        let end: usize = start + NFT_RECORD_SIZE;
        if end > self.data.len() {
            return Err(HeroError::SlotOutOfRange);
        }
        let bytes = slice_subrange(self.data.as_slice(), start, end);
        match NFTRecord::decode(bytes) {
            None => Err(HeroError::InvalidAccountData),
            Some(rec) => {
                if rec.key_nft.key_eq(key_nft) {
                    Ok(rec)
                } else {
                    Err(HeroError::InvalidNFTKey)
                }
            },
        }
    }
}

} // verus!
