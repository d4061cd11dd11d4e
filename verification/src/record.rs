//! One repository record and its fixed-width binary form.
//!
//! Layout of the 181 serialized bytes:
//!   byte  0          slot id (`hero_id`)
//!   bytes 1 .. 5     content-uri length, little-endian `u32`
//!   bytes 5 .. 133   content uri, zero-padded to its fixed capacity
//!   bytes 133 .. 165 asset key (`key_nft`)
//!   bytes 165 .. 173 `last_price`, little-endian `u64`
//!   bytes 173 .. 181 `listed_price`, little-endian `u64`
//!
//! The width is constant so that slot offsets in the repository buffer are
//! plain multiples; the content uri is truncated to its capacity before it
//! is stored.

use vstd::bytes::{
    lemma_auto_spec_u32_to_from_le_bytes, lemma_auto_spec_u64_to_from_le_bytes,
    spec_u32_from_le_bytes, spec_u32_to_le_bytes, spec_u64_from_le_bytes, spec_u64_to_le_bytes,
    u32_from_le_bytes, u32_to_le_bytes, u64_from_le_bytes, u64_to_le_bytes,
};
use vstd::prelude::*;
use vstd::slice::{slice_subrange, slice_to_vec};

use crate::keys::{Key, KEY_LEN};

verus! {

/// The fixed serialized width of one record.
pub const NFT_RECORD_SIZE: usize = 181;

/// The fixed capacity of the content uri inside the serialized form.
pub const CONTENT_URI_CAPACITY: usize = 128;

/// Persisted state for one slot of the repository.
#[derive(Debug, PartialEq, Eq)]
pub struct NFTRecord {
    /// Fixed identity: the slot this record occupies.
    pub hero_id: u8,
    /// Off-chain content pointer (utf-8 bytes), caller supplied.
    pub content_uri: Vec<u8>,
    /// Identity of the external asset (mint) this record tracks.
    pub key_nft: Key,
    /// Price at which the most recent completed sale occurred.
    pub last_price: u64,
    /// Current asking price.
    pub listed_price: u64,
}

/// The mathematical value of a record.
#[verifier::ext_equal]
pub struct RecordView {
    pub hero_id: u8,
    pub content_uri: Seq<u8>,
    pub key_nft: Seq<u8>,
    pub last_price: u64,
    pub listed_price: u64,
}

impl View for NFTRecord {
    type V = RecordView;

    open spec fn view(&self) -> RecordView {
        RecordView {
            hero_id: self.hero_id,
            content_uri: self.content_uri@,
            key_nft: self.key_nft@,
            last_price: self.last_price,
            listed_price: self.listed_price,
        }
    }
}

/// A record value fits the fixed binary form.
pub open spec fn wf_record(r: RecordView) -> bool {
    &&& r.content_uri.len() <= CONTENT_URI_CAPACITY
    &&& r.key_nft.len() == KEY_LEN
}

/// `s` cut down to the fixed uri capacity.
pub open spec fn trunc_uri(s: Seq<u8>) -> Seq<u8> {
    if s.len() <= CONTENT_URI_CAPACITY {
        s
    } else {
        s.subrange(0, CONTENT_URI_CAPACITY as int)
    }
}

/// The fixed-width binary form of a record (meaningful when `wf_record(r)`).
pub open spec fn spec_encode(r: RecordView) -> Seq<u8> {
    seq![r.hero_id] + spec_u32_to_le_bytes(r.content_uri.len() as u32) + r.content_uri
        + Seq::new((CONTENT_URI_CAPACITY - r.content_uri.len()) as nat, |i: int| 0u8) + r.key_nft
        + spec_u64_to_le_bytes(r.last_price) + spec_u64_to_le_bytes(r.listed_price)
}

/// Reads a record back out of its binary form; `None` on a malformed buffer.
pub open spec fn spec_decode(b: Seq<u8>) -> Option<RecordView> {
    if b.len() == NFT_RECORD_SIZE {
        let n = spec_u32_from_le_bytes(b.subrange(1, 5)) as int;
        if n <= CONTENT_URI_CAPACITY {
            Some(
                RecordView {
                    hero_id: b[0],
                    content_uri: b.subrange(5, 5 + n),
                    key_nft: b.subrange(133, 165),
                    last_price: spec_u64_from_le_bytes(b.subrange(165, 173)),
                    listed_price: spec_u64_from_le_bytes(b.subrange(173, 181)),
                },
            )
        } else {
            None
        }
    } else {
        None
    }
}

/// The binary form of a well-formed record has the fixed width.
pub proof fn lemma_encode_len(r: RecordView)
    requires
        wf_record(r),
    ensures
        spec_encode(r).len() == NFT_RECORD_SIZE,
{
    lemma_auto_spec_u32_to_from_le_bytes();
    lemma_auto_spec_u64_to_from_le_bytes();
}

/// Round trip: decoding the binary form of any well-formed record gives the
/// record back unchanged.
pub proof fn lemma_record_roundtrip(r: RecordView)
    requires
        wf_record(r),
    ensures
        spec_decode(spec_encode(r)) == Some(r),
{
    lemma_auto_spec_u32_to_from_le_bytes();
    lemma_auto_spec_u64_to_from_le_bytes();
    let e = spec_encode(r);
    let n = r.content_uri.len() as int;
    assert(e.len() == NFT_RECORD_SIZE);
    assert(e.subrange(1, 5) =~= spec_u32_to_le_bytes(r.content_uri.len() as u32));
    assert(spec_u32_from_le_bytes(e.subrange(1, 5)) as int == n);
    assert(e.subrange(5, 5 + n) =~= r.content_uri);
    assert(e.subrange(133, 165) =~= r.key_nft);
    assert(e.subrange(165, 173) =~= spec_u64_to_le_bytes(r.last_price));
    assert(e.subrange(173, 181) =~= spec_u64_to_le_bytes(r.listed_price));
    assert(spec_decode(e).unwrap() =~= r);
}

impl NFTRecord {
    /// The record fits the fixed binary form.
    pub open spec fn wf(&self) -> bool {
        wf_record(self@)
    }

    /// Builds a record, cutting the content uri down to its fixed capacity.
    pub fn new(hero_id: u8, mut content_uri: Vec<u8>, key_nft: Key, last_price: u64, listed_price: u64) -> (r: NFTRecord)
        requires
            key_nft.wf(),
        ensures
            r@ == (RecordView {
                hero_id,
                content_uri: trunc_uri(content_uri@),
                key_nft: key_nft@,
                last_price,
                listed_price,
            }),
            r.wf(),
    {
        content_uri.truncate(CONTENT_URI_CAPACITY);
        NFTRecord { hero_id, content_uri, key_nft, last_price, listed_price }
    }

    /// Serializes the record into its fixed-width binary form.
    pub fn encode(&self) -> (v: Vec<u8>)
        requires
            self.wf(),
        ensures
            v@ == spec_encode(self@),
            v@.len() == NFT_RECORD_SIZE,
    {
        let mut v: Vec<u8> = Vec::new();
        v.push(self.hero_id);
        let mut len_bytes = u32_to_le_bytes(self.content_uri.len() as u32);
        v.append(&mut len_bytes);
        let mut uri = slice_to_vec(self.content_uri.as_slice());
        v.append(&mut uri);
        let pad = CONTENT_URI_CAPACITY - self.content_uri.len();
        let ghost before_pad = v@;
        let mut j: usize = 0;
        while j < pad
            invariant
                j <= pad,
                v@ == before_pad + Seq::new(j as nat, |i: int| 0u8),
            decreases pad - j,
        {
            v.push(0u8);
            proof {
                assert(v@ =~= before_pad + Seq::new((j + 1) as nat, |i: int| 0u8));
            }
            j += 1;
        }
        let mut key_bytes = slice_to_vec(self.key_nft.bytes.as_slice());
        v.append(&mut key_bytes);
        let mut last_bytes = u64_to_le_bytes(self.last_price);
        v.append(&mut last_bytes);
        let mut listed_bytes = u64_to_le_bytes(self.listed_price);
        v.append(&mut listed_bytes);
        proof {
            lemma_encode_len(self@);
            assert(v@ =~= spec_encode(self@));
        }
        v
    }

    /// Reads a record out of one slot's bytes; `None` on a malformed buffer.
    pub fn decode(b: &[u8]) -> (r: Option<NFTRecord>)
        ensures
            match r {
                Some(rec) => spec_decode(b@) == Some(rec@) && rec.wf(),
                None => spec_decode(b@) is None,
            },
    {
        if b.len() != NFT_RECORD_SIZE {
            return None;
        }
        let hero_id = *vstd::slice::slice_index_get(b, 0);
        let uri_len = u32_from_le_bytes(slice_subrange(b, 1, 5)) as usize;
        if uri_len > CONTENT_URI_CAPACITY {
            return None;
        }
        let content_uri = slice_to_vec(slice_subrange(b, 5, 5 + uri_len));
        let key_bytes = slice_to_vec(slice_subrange(b, 133, 165));
        let last_price = u64_from_le_bytes(slice_subrange(b, 165, 173));
        let listed_price = u64_from_le_bytes(slice_subrange(b, 173, 181));
        let rec = NFTRecord {
            hero_id,
            content_uri,
            key_nft: Key { bytes: key_bytes },
            last_price,
            listed_price,
        };
        proof {
            assert(spec_decode(b@).unwrap() =~= rec@);
        }
        Some(rec)
    }
}

} // verus!
