//! 32-byte identifiers for accounts, assets (mints) and programs.

use vstd::prelude::*;

verus! {

/// The width of every identifier, in bytes.
pub const KEY_LEN: usize = 32;

/// A 32-byte identifier, as the surrounding runtime hands them out for
/// accounts, assets and programs.
#[derive(Debug, PartialEq, Eq)]
pub struct Key {
    pub bytes: Vec<u8>,
}

impl View for Key {
    type V = Seq<u8>;

    open spec fn view(&self) -> Seq<u8> {
        self.bytes@
    }
}

impl Key {
    /// A key is well formed when it has exactly the fixed width.
    pub open spec fn wf(&self) -> bool {
        self@.len() == KEY_LEN
    }

    /// Wraps raw bytes as a key; fails unless exactly `KEY_LEN` bytes are given.
    pub fn from_bytes(bytes: Vec<u8>) -> (r: Option<Key>)
        ensures
            match r {
                Some(k) => k.wf() && k@ == bytes@,
                None => bytes@.len() != KEY_LEN,
            },
    {
        if bytes.len() == KEY_LEN {
            Some(Key { bytes })
        } else {
            None
        }
    }

    /// Compares two keys byte for byte.
    pub fn key_eq(&self, other: &Key) -> (r: bool)
        ensures
            r == (self@ == other@),
    {
        if self.bytes.len() != other.bytes.len() {
            return false;
        }
        let n = self.bytes.len();
        let mut i: usize = 0;
        while i < n
            invariant
                n == self.bytes@.len(),
                n == other.bytes@.len(),
                i <= n,
                forall|j: int| 0 <= j < i ==> self.bytes@[j] == other.bytes@[j],
            decreases n - i,
        {
            if self.bytes[i] != other.bytes[i] {
                return false;
            }
            i += 1;
        }
        proof {
            assert(self@ =~= other@);
        }
        true
    }
}

impl Clone for Key {
    fn clone(&self) -> (r: Key)
        ensures
            r@ == self@,
    {
        let n = self.bytes.len();
        let mut copy: Vec<u8> = Vec::new();
        let mut i: usize = 0;
        while i < n
            invariant
                n == self.bytes@.len(),
                i <= n,
                copy@ == self.bytes@.subrange(0, i as int),
            decreases n - i,
        {
            copy.push(self.bytes[i]);
            i += 1;
        }
        proof {
            assert(copy@ =~= self.bytes@);
        }
        Key { bytes: copy }
    }
}

} // verus!
