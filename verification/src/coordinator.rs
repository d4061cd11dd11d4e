//! Delegated-transfer coordinator: the ledger's program-controlled signing
//! authority, the configuration that threads it through every transition,
//! and the explicit effect values the processor emits.  The host performs
//! each effect against the external token, payment and metadata services
//! and reports the outcome back; a rejected effect aborts the whole
//! instruction before any later step runs.

use vstd::prelude::*;

use crate::keys::Key;

verus! {

/// How a completed sale treats the sold asset instance.
#[derive(Clone, Copy, Debug, PartialEq, Eq, Structural)]
pub enum BuyStrategy {
    /// The same asset instance moves to the buyer and is re-listed.
    Resell,
    /// The sold instance is retired and the record is rebound to a freshly
    /// issued instance of the same slot.
    Reissue,
}

/// Configuration computed once at startup and passed explicitly: the ledger
/// program's own id, its derived signing authority, and the buy strategy.
pub struct Config {
    pub program_id: Key,
    pub authority: Key,
    pub strategy: BuyStrategy,
}

impl Config {
    pub open spec fn wf(&self) -> bool {
        &&& self.program_id.wf()
        &&& self.authority.wf()
    }
}

/// One request to an external service, emitted by the processor and
/// performed by the host in the order given.
#[derive(Debug, PartialEq, Eq)]
pub enum Effect {
    /// The owner grants the delegate transfer authority over `amount` units
    /// held in `token_account`.
    ApproveDelegate { token_account: Key, delegate: Key, owner: Key, amount: u64 },
    /// The authority moves `amount` units from one token account to another.
    TransferAsset { from: Key, to: Key, authority: Key, amount: u64 },
    /// The metadata service rewrites the retired instance's content pointer
    /// and name to their terminal values.
    RetireMetadata { metadata_account: Key, authority: Key, new_uri: Vec<u8>, new_name: Vec<u8> },
    /// `amount` of payment currency moves from the buyer to the previous
    /// holder.
    PayHolder { from: Key, to: Key, amount: u64 },
}

/// The mathematical value of an effect.
#[verifier::ext_equal]
pub enum EffectView {
    ApproveDelegate { token_account: Seq<u8>, delegate: Seq<u8>, owner: Seq<u8>, amount: u64 },
    TransferAsset { from: Seq<u8>, to: Seq<u8>, authority: Seq<u8>, amount: u64 },
    RetireMetadata {
        metadata_account: Seq<u8>,
        authority: Seq<u8>,
        new_uri: Seq<u8>,
        new_name: Seq<u8>,
    },
    PayHolder { from: Seq<u8>, to: Seq<u8>, amount: u64 },
}

impl View for Effect {
    type V = EffectView;

    open spec fn view(&self) -> EffectView {
        match self {
            Effect::ApproveDelegate { token_account, delegate, owner, amount } => {
                EffectView::ApproveDelegate {
                    token_account: token_account@,
                    delegate: delegate@,
                    owner: owner@,
                    amount: *amount,
                }
            },
            Effect::TransferAsset { from, to, authority, amount } => {
                EffectView::TransferAsset {
                    from: from@,
                    to: to@,
                    authority: authority@,
                    amount: *amount,
                }
            },
            Effect::RetireMetadata { metadata_account, authority, new_uri, new_name } => {
                EffectView::RetireMetadata {
                    metadata_account: metadata_account@,
                    authority: authority@,
                    new_uri: new_uri@,
                    new_name: new_name@,
                }
            },
            Effect::PayHolder { from, to, amount } => {
                EffectView::PayHolder { from: from@, to: to@, amount: *amount }
            },
        }
    }
}

/// The address the external runtime derives for this program from the fixed
/// domain-separation tag; a function of the program id alone.
pub uninterp spec fn pda_of(program_id: Seq<u8>) -> Seq<u8>;

/// Whether that derivation finds an address at all; like the address, a
/// function of the program id alone.
pub uninterp spec fn pda_found(program_id: Seq<u8>) -> bool;

/// Relies on `solana_program::pubkey::Pubkey::try_find_program_address` over
/// the fixed domain tag: a deterministic search whose outcome and result
/// depend on the program id alone, 32 bytes wide, absent only when the
/// search exhausts every bump seed.
#[verifier::external_body]
fn find_authority(program_id: &Key) -> (r: Option<Key>)
    requires
        program_id.wf(),
    ensures
        r is Some <==> pda_found(program_id@),
        match r {
            Some(k) => k@ == pda_of(program_id@) && k.wf(),
            None => true,
        },
{
    let pid = solana_program::pubkey::Pubkey::try_from(program_id.bytes.as_slice()).ok()?;
    let (pda, _bump) = solana_program::pubkey::Pubkey::try_find_program_address(
        &[b"hallofheros"],
        &pid,
    )?;
    Some(Key { bytes: pda.to_bytes().to_vec() })
}

impl Config {
    /// Derives the program-controlled authority once, at startup, and fixes
    /// the buy strategy.  A configuration comes back exactly when the
    /// derivation finds an address for this program id.
    pub fn new(program_id: Key, strategy: BuyStrategy) -> (r: Option<Config>)
        requires
            program_id.wf(),
        ensures
            r is Some <==> pda_found(program_id@),
            match r {
                Some(c) => c.wf() && c.program_id@ == program_id@ && c.authority@ == pda_of(
                    program_id@,
                ) && c.strategy == strategy,
                None => true,
            },
    {
        match find_authority(&program_id) {
            Some(authority) => Some(Config { program_id, authority, strategy }),
            None => None,
        }
    }
}

} // verus!
