//! Ownership oracle client: a read-only adapter over the external token
//! service's holding records.  Given the raw bytes of a token-holding
//! account it answers who currently holds which asset, and how much of it;
//! a malformed record is a fatal validation error for the calling
//! transition, never a retryable condition.

use vstd::bytes::spec_u64_from_le_bytes;
use vstd::prelude::*;

use spl_token::solana_program::program_pack::Pack;

use crate::error::HeroError;
use crate::keys::Key;

verus! {

/// Serialized width of a token-holding record in the external token service.
pub const TOKEN_HOLDING_LEN: usize = 165;

/// What a token-holding record says: who holds which asset, and how much.
#[derive(Debug, PartialEq, Eq)]
pub struct TokenHolding {
    pub mint: Key,
    pub owner: Key,
    pub amount: u64,
}

/// The mathematical value of a holding.
#[verifier::ext_equal]
pub struct HoldingView {
    pub mint: Seq<u8>,
    pub owner: Seq<u8>,
    pub amount: u64,
}

impl View for TokenHolding {
    type V = HoldingView;

    open spec fn view(&self) -> HoldingView {
        HoldingView { mint: self.mint@, owner: self.owner@, amount: self.amount }
    }
}

/// The four tag bytes of one of the record's optional fields: a little-endian
/// 0 (absent) or 1 (present); anything else makes the record malformed.
pub open spec fn coption_tag_ok(s: Seq<u8>, at: int) -> bool {
    &&& (s[at] == 0 || s[at] == 1)
    &&& s[at + 1] == 0
    &&& s[at + 2] == 0
    &&& s[at + 3] == 0
}

/// The token service's layout of a holding record: mint at 0..32, owner at
/// 32..64, amount (little-endian) at 64..72; a delegate field tagged at 72,
/// a one-byte account state (at most 2) at 108, a native-balance field
/// tagged at 109 and a close-authority field tagged at 129.
pub open spec fn spec_token_holding(s: Seq<u8>) -> Option<HoldingView> {
    if s.len() == TOKEN_HOLDING_LEN && coption_tag_ok(s, 72) && s[108] <= 2 && coption_tag_ok(
        s,
        109,
    ) && coption_tag_ok(s, 129) {
        Some(
            HoldingView {
                mint: s.subrange(0, 32),
                owner: s.subrange(32, 64),
                amount: spec_u64_from_le_bytes(s.subrange(64, 72)),
            },
        )
    } else {
        None
    }
}

/// Relies on `spl_token::state::Account::unpack_from_slice`: it reads the
/// mint, owner and amount at the fixed offsets that `spec_token_holding`
/// states, and rejects the record exactly when an optional-field tag or the
/// account-state byte is out of range.
#[verifier::external_body]
fn parse_token_holding(data: &[u8]) -> (r: Option<TokenHolding>)
    requires
        data@.len() == TOKEN_HOLDING_LEN,
    ensures
        match r {
            Some(h) => spec_token_holding(data@) == Some(h@),
            None => spec_token_holding(data@) is None,
        },
{
    match spl_token::state::Account::unpack_from_slice(data) {
        Ok(a) => Some(
            TokenHolding {
                mint: Key { bytes: a.mint.to_bytes().to_vec() },
                owner: Key { bytes: a.owner.to_bytes().to_vec() },
                amount: a.amount,
            },
        ),
        Err(_) => None,
    }
}

/// Reads the current holder out of a token-holding record.  Succeeds exactly
/// on a well-formed record, and never mutates anything.
pub fn current_holder(data: &[u8]) -> (r: Result<TokenHolding, HeroError>)
    ensures
        r is Ok <==> spec_token_holding(data@) is Some,
        match r {
            Ok(h) => spec_token_holding(data@) == Some(h@) && h.mint.wf() && h.owner.wf(),
            Err(e) => e == HeroError::InvalidAccountData,
        },
{
    if data.len() != TOKEN_HOLDING_LEN {
        return Err(HeroError::InvalidAccountData);
    }
    match parse_token_holding(data) {
        Some(h) => Ok(h),
        None => Err(HeroError::InvalidAccountData),
    }
}

} // verus!
