//! The wire format of the three caller-visible operations.
//!
//! The first byte is the operation tag (0 = add, 1 = update, 2 = buy); the
//! rest is a fixed binary encoding of the operation's arguments, in field
//! order.  Integers are little-endian; a byte string is a little-endian
//! `u32` length followed by exactly that many bytes; an asset key is 32 raw
//! bytes.  Trailing bytes, an unknown tag or a short buffer make the whole
//! instruction invalid.

use vstd::bytes::{spec_u32_from_le_bytes, spec_u64_from_le_bytes, u32_from_le_bytes, u64_from_le_bytes};
use vstd::prelude::*;
use vstd::slice::{slice_index_get, slice_subrange, slice_to_vec};

use crate::error::HeroError;
use crate::keys::Key;
use crate::processor::{
    AddArgsView, AddRecordArgs, BuyArgsView, BuyRecordArgs, UpdateArgsView, UpdateRecordArgs,
};

verus! {

/// One decoded instruction.
#[derive(Debug)]
pub enum HeroInstruction {
    /// Stores a new record; accounts: the signing adder, the writable
    /// repository, the adder's token account, the program authority and the
    /// token program.
    AddRecord(AddRecordArgs),
    /// Changes a record's asking price and content pointer; accounts: the
    /// signing setter, the writable repository, the asset's mint and the
    /// setter's token account.
    UpdateRecord(UpdateRecordArgs),
    /// Executes a sale; accounts: the signing buyer, the previous holder,
    /// the writable repository, the asset accounts of both sides, the
    /// program authority and the external service programs.
    BuyRecord(BuyRecordArgs),
}

/// The mathematical value of an instruction.
#[verifier::ext_equal]
pub enum InstructionView {
    AddRecord(AddArgsView),
    UpdateRecord(UpdateArgsView),
    BuyRecord(BuyArgsView),
}

impl View for HeroInstruction {
    type V = InstructionView;

    open spec fn view(&self) -> InstructionView {
        match self {
            HeroInstruction::AddRecord(a) => InstructionView::AddRecord(a@),
            HeroInstruction::UpdateRecord(a) => InstructionView::UpdateRecord(a@),
            HeroInstruction::BuyRecord(a) => InstructionView::BuyRecord(a@),
        }
    }
}

/// Add arguments on the wire: slot id (1), content uri (4 + n), asset key
/// (32), last price (8), listed price (8); 53 + n bytes in all.
pub open spec fn spec_unpack_add(s: Seq<u8>) -> Option<AddArgsView> {
    if s.len() >= 5 {
        let n = spec_u32_from_le_bytes(s.subrange(1, 5)) as int;
        if s.len() == 53 + n {
            Some(
                AddArgsView {
                    hero_id: s[0],
                    content_uri: s.subrange(5, 5 + n),
                    key_nft: s.subrange(5 + n, 37 + n),
                    last_price: spec_u64_from_le_bytes(s.subrange(37 + n, 45 + n)),
                    listed_price: spec_u64_from_le_bytes(s.subrange(45 + n, 53 + n)),
                },
            )
        } else {
            None
        }
    } else {
        None
    }
}

/// Update arguments on the wire: slot id (1), asset key (32), new price
/// (8), content uri (4 + n); 45 + n bytes in all.
pub open spec fn spec_unpack_update(s: Seq<u8>) -> Option<UpdateArgsView> {
    if s.len() >= 45 {
        let n = spec_u32_from_le_bytes(s.subrange(41, 45)) as int;
        if s.len() == 45 + n {
            Some(
                UpdateArgsView {
                    hero_id: s[0],
                    key_nft: s.subrange(1, 33),
                    new_price: spec_u64_from_le_bytes(s.subrange(33, 41)),
                    content_uri: s.subrange(45, 45 + n),
                },
            )
        } else {
            None
        }
    } else {
        None
    }
}

/// Buy arguments on the wire: slot id (1), terminal uri (4 + n), terminal
/// name (4 + m); 9 + n + m bytes in all.
pub open spec fn spec_unpack_buy(s: Seq<u8>) -> Option<BuyArgsView> {
    if s.len() >= 5 {
        let n = spec_u32_from_le_bytes(s.subrange(1, 5)) as int;
        if s.len() >= 9 + n {
            let m = spec_u32_from_le_bytes(s.subrange(5 + n, 9 + n)) as int;
            if s.len() == 9 + n + m {
                Some(
                    BuyArgsView {
                        hero_id: s[0],
                        dead_uri: s.subrange(5, 5 + n),
                        dead_name: s.subrange(9 + n, 9 + n + m),
                    },
                )
            } else {
                None
            }
        } else {
            None
        }
    } else {
        None
    }
}

/// The whole wire format: tag byte, then the tagged operation's arguments.
pub open spec fn spec_unpack(s: Seq<u8>) -> Option<InstructionView> {
    if s.len() < 1 {
        None
    } else if s[0] == 0 {
        match spec_unpack_add(s.skip(1)) {
            Some(a) => Some(InstructionView::AddRecord(a)),
            None => None,
        }
    } else if s[0] == 1 {
        match spec_unpack_update(s.skip(1)) {
            Some(a) => Some(InstructionView::UpdateRecord(a)),
            None => None,
        }
    } else if s[0] == 2 {
        match spec_unpack_buy(s.skip(1)) {
            Some(a) => Some(InstructionView::BuyRecord(a)),
            None => None,
        }
    } else {
        None
    }
}

impl HeroInstruction {
    /// Decodes one instruction; any malformed input is `InvalidInstruction`.
    pub fn unpack(input: &[u8]) -> (r: Result<HeroInstruction, HeroError>)
        ensures
            match r {
                Ok(ins) => spec_unpack(input@) == Some(ins@),
                Err(e) => spec_unpack(input@) is None && e == HeroError::InvalidInstruction,
            },
    {
        if input.len() < 1 {
            return Err(HeroError::InvalidInstruction);
        }
        let tag = *slice_index_get(input, 0);
        let rest = slice_subrange(input, 1, input.len());
        proof {
            assert(rest@ =~= input@.skip(1));
        }
        match tag {
            0 => {
                match Self::unpack_add_record_args(rest) {
                    Ok(a) => Ok(HeroInstruction::AddRecord(a)),
                    Err(e) => Err(e),
                }
            },
            1 => {
                match Self::unpack_update_record_args(rest) {
                    Ok(a) => Ok(HeroInstruction::UpdateRecord(a)),
                    Err(e) => Err(e),
                }
            },
            2 => {
                match Self::unpack_buy_record_args(rest) {
                    Ok(a) => Ok(HeroInstruction::BuyRecord(a)),
                    Err(e) => Err(e),
                }
            },
            _ => Err(HeroError::InvalidInstruction),
        }
    }

    fn unpack_add_record_args(s: &[u8]) -> (r: Result<AddRecordArgs, HeroError>)
        ensures
            match r {
                Ok(a) => spec_unpack_add(s@) == Some(a@) && a.key_nft.wf(),
                Err(e) => spec_unpack_add(s@) is None && e == HeroError::InvalidInstruction,
            },
    {
        if s.len() < 53 {
            return Err(HeroError::InvalidInstruction);
        }
        let n = u32_from_le_bytes(slice_subrange(s, 1, 5)) as usize;
        if n != s.len() - 53 {
            return Err(HeroError::InvalidInstruction);
        }
        let hero_id = *slice_index_get(s, 0);
        let content_uri = slice_to_vec(slice_subrange(s, 5, 5 + n));
        let key_bytes = slice_to_vec(slice_subrange(s, 5 + n, 37 + n));
        let last_price = u64_from_le_bytes(slice_subrange(s, 37 + n, 45 + n));
        let listed_price = u64_from_le_bytes(slice_subrange(s, 45 + n, 53 + n));
        let a = AddRecordArgs {
            hero_id,
            content_uri,
            key_nft: Key { bytes: key_bytes },
            last_price,
            listed_price,
        };
        proof {
            assert(spec_unpack_add(s@).unwrap() =~= a@);
        }
        Ok(a)
    }

    fn unpack_update_record_args(s: &[u8]) -> (r: Result<UpdateRecordArgs, HeroError>)
        ensures
            match r {
                Ok(a) => spec_unpack_update(s@) == Some(a@) && a.key_nft.wf(),
                Err(e) => spec_unpack_update(s@) is None && e == HeroError::InvalidInstruction,
            },
    {
        if s.len() < 45 {
            return Err(HeroError::InvalidInstruction);
        }
        let n = u32_from_le_bytes(slice_subrange(s, 41, 45)) as usize;
        if n != s.len() - 45 {
            return Err(HeroError::InvalidInstruction);
        }
        let hero_id = *slice_index_get(s, 0);
        let key_bytes = slice_to_vec(slice_subrange(s, 1, 33));
        let new_price = u64_from_le_bytes(slice_subrange(s, 33, 41));
        let content_uri = slice_to_vec(slice_subrange(s, 45, 45 + n));
        let a = UpdateRecordArgs { hero_id, key_nft: Key { bytes: key_bytes }, new_price, content_uri };
        proof {
            assert(spec_unpack_update(s@).unwrap() =~= a@);
        }
        Ok(a)
    }

    fn unpack_buy_record_args(s: &[u8]) -> (r: Result<BuyRecordArgs, HeroError>)
        ensures
            match r {
                Ok(a) => spec_unpack_buy(s@) == Some(a@),
                Err(e) => spec_unpack_buy(s@) is None && e == HeroError::InvalidInstruction,
            },
    {
        if s.len() < 9 {
            return Err(HeroError::InvalidInstruction);
        }
        let n = u32_from_le_bytes(slice_subrange(s, 1, 5)) as usize;
        if n > s.len() - 9 {
            return Err(HeroError::InvalidInstruction);
        }
        let m = u32_from_le_bytes(slice_subrange(s, 5 + n, 9 + n)) as usize;
        if m != s.len() - 9 - n {
            return Err(HeroError::InvalidInstruction);
        }
        let hero_id = *slice_index_get(s, 0);
        let dead_uri = slice_to_vec(slice_subrange(s, 5, 5 + n));
        let dead_name = slice_to_vec(slice_subrange(s, 9 + n, 9 + n + m));
        let a = BuyRecordArgs { hero_id, dead_uri, dead_name };
        proof {
            assert(spec_unpack_buy(s@).unwrap() =~= a@);
        }
        Ok(a)
    }
}

} // verus!
