//! The instruction processor: validates callers and account relationships,
//! reads and writes the record repository, asks the ownership oracle who
//! holds an asset, and emits the delegated-transfer coordinator's effects
//! in their fixed order.  Each transition is atomic: a failed check or a
//! failed external step aborts the instruction with the repository
//! untouched by that call, and no later step ever runs.

use vstd::prelude::*;
use vstd::slice::slice_to_vec;

use crate::coordinator::{BuyStrategy, Config, Effect, EffectView};
use crate::error::HeroError;
use crate::instruction::{spec_unpack, HeroInstruction, InstructionView};
use crate::keys::Key;
use crate::oracle::{current_holder, spec_token_holding};
use crate::record::{trunc_uri, NFTRecord, RecordView, CONTENT_URI_CAPACITY};
use crate::repository::{wrote, Repository};

verus! {

/// Arguments of the add transition: the record image to store.
#[derive(Debug)]
pub struct AddRecordArgs {
    pub hero_id: u8,
    pub content_uri: Vec<u8>,
    pub key_nft: Key,
    pub last_price: u64,
    pub listed_price: u64,
}

/// The mathematical value of add arguments.
#[verifier::ext_equal]
pub struct AddArgsView {
    pub hero_id: u8,
    pub content_uri: Seq<u8>,
    pub key_nft: Seq<u8>,
    pub last_price: u64,
    pub listed_price: u64,
}

impl View for AddRecordArgs {
    type V = AddArgsView;

    open spec fn view(&self) -> AddArgsView {
        AddArgsView {
            hero_id: self.hero_id,
            content_uri: self.content_uri@,
            key_nft: self.key_nft@,
            last_price: self.last_price,
            listed_price: self.listed_price,
        }
    }
}

/// Arguments of the update transition: the asset presented, the new asking
/// price and the new content pointer.
#[derive(Debug)]
pub struct UpdateRecordArgs {
    pub hero_id: u8,
    pub key_nft: Key,
    pub new_price: u64,
    pub content_uri: Vec<u8>,
}

/// The mathematical value of update arguments.
#[verifier::ext_equal]
pub struct UpdateArgsView {
    pub hero_id: u8,
    pub key_nft: Seq<u8>,
    pub new_price: u64,
    pub content_uri: Seq<u8>,
}

impl View for UpdateRecordArgs {
    type V = UpdateArgsView;

    open spec fn view(&self) -> UpdateArgsView {
        UpdateArgsView {
            hero_id: self.hero_id,
            key_nft: self.key_nft@,
            new_price: self.new_price,
            content_uri: self.content_uri@,
        }
    }
}

/// Arguments of the buy transition: the slot bought and, for the reissue
/// strategy, the terminal content pointer and name of the retired instance.
#[derive(Debug)]
pub struct BuyRecordArgs {
    pub hero_id: u8,
    pub dead_uri: Vec<u8>,
    pub dead_name: Vec<u8>,
}

/// The mathematical value of buy arguments.
#[verifier::ext_equal]
pub struct BuyArgsView {
    pub hero_id: u8,
    pub dead_uri: Seq<u8>,
    pub dead_name: Seq<u8>,
}

impl View for BuyRecordArgs {
    type V = BuyArgsView;

    open spec fn view(&self) -> BuyArgsView {
        BuyArgsView {
            hero_id: self.hero_id,
            dead_uri: self.dead_uri@,
            dead_name: self.dead_name@,
        }
    }
}

/// The plain values the host reads off the instruction's account list
/// before it hands control to the processor.
pub struct CallAccounts {
    /// The adder / setter / buyer: the account driving the instruction.
    pub caller: Key,
    /// Whether that account signed the transaction.
    pub caller_is_signer: bool,
    /// Owner of the repository account; must be this program.
    pub repository_owner: Key,
    /// The caller's token account: the delegate grant's source on add, the
    /// receiving account on buy.
    pub caller_token_account: Key,
    /// The previous holder of the asset (buy only).
    pub prev_owner: Key,
    /// The token account the asset leaves (buy only).
    pub send_token_account: Key,
    /// Raw bytes of the token-holding record the ownership oracle reads:
    /// the setter's on update, the previous holder's on buy.
    pub holding_data: Vec<u8>,
    /// The asset (mint) account the instruction presents (buy only;
    /// update presents the asset inside its arguments).
    pub asset: Key,
    /// The retired instance's metadata account (buy, reissue strategy).
    pub metadata_account: Key,
    /// Owner of that metadata account, as the runtime reports it.
    pub metadata_owner: Key,
    /// The external metadata program's id.
    pub metadata_program: Key,
    /// The mint recorded inside the metadata account, as the host parsed it.
    pub metadata_mint: Key,
    /// The freshly issued asset instance (buy, reissue strategy).
    pub new_asset: Key,
}

impl CallAccounts {
    pub open spec fn wf(&self) -> bool {
        &&& self.caller.wf()
        &&& self.repository_owner.wf()
        &&& self.caller_token_account.wf()
        &&& self.prev_owner.wf()
        &&& self.send_token_account.wf()
        &&& self.asset.wf()
        &&& self.metadata_account.wf()
        &&& self.metadata_owner.wf()
        &&& self.metadata_program.wf()
        &&& self.metadata_mint.wf()
        &&& self.new_asset.wf()
    }
}

/// What the host reports back after performing one emitted effect.
#[derive(Clone, Copy, Debug, PartialEq, Eq, Structural)]
pub enum StepOutcome {
    /// The external service accepted the request.
    Succeeded,
    /// The external service rejected it; the instruction is aborted.
    Failed,
}

/// The oracle's record at `data` names `owner` as the current holder of
/// `mint`: the identities match and at least one unit is actually held.
pub open spec fn holder_matches(data: Seq<u8>, owner: Seq<u8>, mint: Seq<u8>) -> bool {
    match spec_token_holding(data) {
        Some(h) => h.owner == owner && h.mint == mint && h.amount >= 1,
        None => false,
    }
}

pub struct Processor;

/// The record image an add instruction stores: the arguments themselves,
/// with the content uri cut down to its fixed capacity.
pub open spec fn add_record_view(a: AddArgsView) -> RecordView {
    RecordView {
        hero_id: a.hero_id,
        content_uri: trunc_uri(a.content_uri),
        key_nft: a.key_nft,
        last_price: a.last_price,
        listed_price: a.listed_price,
    }
}

/// The add transition's preconditions: a signing caller and a repository
/// owned by this program.
pub open spec fn add_accepted(config: Config, ctx: CallAccounts) -> bool {
    &&& ctx.caller_is_signer
    &&& ctx.repository_owner@ == config.program_id@
}

/// Which error a rejected add raises.
pub open spec fn add_rejection(config: Config, ctx: CallAccounts) -> HeroError {
    if !ctx.caller_is_signer {
        HeroError::MissingRequiredSignature
    } else {
        HeroError::IncorrectProgramId
    }
}

/// The delegate grant an add requests: the caller pre-authorizes the
/// program authority over one unit out of the caller's token account.
pub open spec fn add_grant_effect(config: Config, ctx: CallAccounts) -> EffectView {
    EffectView::ApproveDelegate {
        token_account: ctx.caller_token_account@,
        delegate: config.authority@,
        owner: ctx.caller@,
        amount: 1u64,
    }
}

/// An add instruction whose delegate grant is still out with the external
/// token service; the record is only written once the grant succeeded.
#[derive(Debug)]
pub struct AddSession {
    pub record: NFTRecord,
}

impl Processor {
    /// Validates an add instruction and emits its delegate grant.  The
    /// repository is untouched here: the grant must succeed first.
    pub fn begin_add(config: &Config, ctx: &CallAccounts, args: &AddRecordArgs) -> (r: Result<
        (AddSession, Effect),
        HeroError,
    >)
        requires
            args.key_nft.wf(),
        ensures
            r is Ok <==> add_accepted(*config, *ctx),
            match r {
                Ok((session, effect)) => session.record@ == add_record_view(args@)
                    && session.record.wf() && effect@ == add_grant_effect(*config, *ctx),
                Err(e) => e == add_rejection(*config, *ctx),
            },
    {
        if !ctx.caller_is_signer {
            return Err(HeroError::MissingRequiredSignature);
        }
        if !ctx.repository_owner.key_eq(&config.program_id) {
            return Err(HeroError::IncorrectProgramId);
        }
        let record = NFTRecord::new(
            args.hero_id,
            slice_to_vec(args.content_uri.as_slice()),
            args.key_nft.clone(),
            args.last_price,
            args.listed_price,
        );
        let effect = Effect::ApproveDelegate {
            token_account: ctx.caller_token_account.clone(),
            delegate: config.authority.clone(),
            owner: ctx.caller.clone(),
            amount: 1,
        };
        Ok((AddSession { record }, effect))
    }

    /// Finishes an add once the host reports the delegate grant's outcome.
    /// A failed grant aborts with nothing written, so no record ever points
    /// at an asset the program has no authority over; a successful grant
    /// writes the record, unless its slot lies past the buffer's end.
    pub fn complete_add(repo: &mut Repository, session: AddSession, grant: StepOutcome) -> (r:
        Result<(), HeroError>)
        requires
            session.record.wf(),
        ensures
            grant == StepOutcome::Failed ==> r == Err::<(), HeroError>(
                HeroError::ExternalCallFailure,
            ) && *final(repo) == *old(repo),
            grant == StepOutcome::Succeeded ==> {
                &&& r is Ok <==> old(repo).slot_in_range(session.record.hero_id as int)
                &&& match r {
                    Ok(()) => wrote(*old(repo), *final(repo), session.record@),
                    Err(e) => e == HeroError::SlotOutOfRange && *final(repo) == *old(repo),
                }
            },
    {
        match grant {
            StepOutcome::Failed => Err(HeroError::ExternalCallFailure),
            StepOutcome::Succeeded => repo.write(&session.record),
        }
    }
}

/// The update transition's preconditions: a signing caller, a repository
/// owned by this program, an oracle record naming the caller as the holder
/// of the presented asset, and a stored record matching that asset whose
/// own slot fits the buffer.
pub open spec fn update_accepted(
    repo: Repository,
    config: Config,
    ctx: CallAccounts,
    args: UpdateArgsView,
) -> bool {
    &&& ctx.caller_is_signer
    &&& ctx.repository_owner@ == config.program_id@
    &&& holder_matches(ctx.holding_data@, ctx.caller@, args.key_nft)
    &&& repo.slot_in_range(args.hero_id as int)
    &&& repo.record_at(args.hero_id as int) is Some
    &&& repo.record_at(args.hero_id as int).unwrap().key_nft == args.key_nft
    &&& repo.slot_in_range(repo.record_at(args.hero_id as int).unwrap().hero_id as int)
}

/// Which error a rejected update raises: the first failing check decides.
pub open spec fn update_rejection(
    repo: Repository,
    config: Config,
    ctx: CallAccounts,
    args: UpdateArgsView,
) -> HeroError {
    if !ctx.caller_is_signer {
        HeroError::MissingRequiredSignature
    } else if ctx.repository_owner@ != config.program_id@ {
        HeroError::IncorrectProgramId
    } else if spec_token_holding(ctx.holding_data@) is None {
        HeroError::InvalidAccountData
    } else if !holder_matches(ctx.holding_data@, ctx.caller@, args.key_nft) {
        HeroError::InvalidArgument
    } else if !(repo.slot_in_range(args.hero_id as int) && repo.record_at(args.hero_id as int)
        is Some && repo.record_at(args.hero_id as int).unwrap().key_nft == args.key_nft) {
        repo.read_rejection(args.hero_id as int, args.key_nft)
    } else {
        HeroError::SlotOutOfRange
    }
}

/// What an update leaves in the slot: only the asking price and the content
/// uri change; identity, asset key and last price are untouched.
pub open spec fn updated_record(m: RecordView, args: UpdateArgsView) -> RecordView {
    RecordView { content_uri: trunc_uri(args.content_uri), listed_price: args.new_price, ..m }
}

/// Update changes only the asking price and the content uri: the slot
/// identity, the asset key and the settled price of any record are
/// bit-identical before and after.  The stored uri equals the argument
/// whenever it fits the fixed binary capacity; past that it is the
/// truncation the fixed record width forces.
pub proof fn lemma_update_preserves_identity(m: RecordView, args: UpdateArgsView)
    ensures
        updated_record(m, args).hero_id == m.hero_id,
        updated_record(m, args).key_nft == m.key_nft,
        updated_record(m, args).last_price == m.last_price,
        updated_record(m, args).listed_price == args.new_price,
        updated_record(m, args).content_uri == trunc_uri(args.content_uri),
        args.content_uri.len() <= CONTENT_URI_CAPACITY ==> updated_record(
            m,
            args,
        ).content_uri == args.content_uri,
{
}

impl Processor {
    /// Applies an update instruction in one call: it has no external step,
    /// so the repository either holds the updated record afterwards or is
    /// bit-identical to before.
    pub fn process_update_record(
        repo: &mut Repository,
        config: &Config,
        ctx: &CallAccounts,
        args: &UpdateRecordArgs,
    ) -> (r: Result<(), HeroError>)
        ensures
            r is Ok <==> update_accepted(*old(repo), *config, *ctx, args@),
            match r {
                Ok(()) => wrote(
                    *old(repo),
                    *final(repo),
                    updated_record(old(repo).record_at(args.hero_id as int).unwrap(), args@),
                ),
                Err(e) => *final(repo) == *old(repo) && e == update_rejection(
                    *old(repo),
                    *config,
                    *ctx,
                    args@,
                ),
            },
    {
        if !ctx.caller_is_signer {
            return Err(HeroError::MissingRequiredSignature);
        }
        if !ctx.repository_owner.key_eq(&config.program_id) {
            return Err(HeroError::IncorrectProgramId);
        }
        let holding = match current_holder(ctx.holding_data.as_slice()) {
            Ok(h) => h,
            Err(e) => {
                return Err(e);
            },
        };
        if !(holding.owner.key_eq(&ctx.caller) && holding.mint.key_eq(&args.key_nft)
            && holding.amount >= 1) {
            return Err(HeroError::InvalidArgument);
        }
        let rec = match repo.read(args.hero_id, &args.key_nft) {
            Ok(rec) => rec,
            Err(e) => {
                return Err(e);
            },
        };
        let new_rec = NFTRecord::new(
            rec.hero_id,
            slice_to_vec(args.content_uri.as_slice()),
            rec.key_nft,
            rec.last_price,
            args.new_price,
        );
        repo.write(&new_rec)
    }
}

/// Where a buy stands between its ordered steps.
#[derive(Clone, Copy, Debug, PartialEq, Eq, Structural)]
pub enum BuyStage {
    /// The asset transfer is out with the token service.
    AwaitTransfer,
    /// The metadata retirement is out (reissue strategy only).
    AwaitRetire,
    /// The buyer's re-delegation is out with the token service.
    AwaitApprove,
    /// The record is settled; the payment is out.
    AwaitPayment,
    /// Completed or aborted; nothing more may run.
    Done,
}

/// A buy instruction in flight between its external steps.
#[derive(Debug)]
pub struct BuySession {
    pub stage: BuyStage,
    pub hero_id: u8,
    /// The asset being sold: must match the stored record.
    pub asset: Key,
    /// The freshly issued instance the record is rebound to (reissue only).
    pub new_asset: Key,
    /// Whether this sale retires and reissues the asset instance.
    pub reissue: bool,
    pub buyer: Key,
    pub prev_owner: Key,
    /// The buyer's token account that receives the asset.
    pub recv_token_account: Key,
    pub metadata_account: Key,
    /// The program-controlled authority that signs on the ledger's behalf.
    pub authority: Key,
    pub dead_uri: Vec<u8>,
    pub dead_name: Vec<u8>,
}

/// The mathematical value of a buy session.
#[verifier::ext_equal]
pub struct BuySessionView {
    pub stage: BuyStage,
    pub hero_id: u8,
    pub asset: Seq<u8>,
    pub new_asset: Seq<u8>,
    pub reissue: bool,
    pub buyer: Seq<u8>,
    pub prev_owner: Seq<u8>,
    pub recv_token_account: Seq<u8>,
    pub metadata_account: Seq<u8>,
    pub authority: Seq<u8>,
    pub dead_uri: Seq<u8>,
    pub dead_name: Seq<u8>,
}

impl View for BuySession {
    type V = BuySessionView;

    open spec fn view(&self) -> BuySessionView {
        BuySessionView {
            stage: self.stage,
            hero_id: self.hero_id,
            asset: self.asset@,
            new_asset: self.new_asset@,
            reissue: self.reissue,
            buyer: self.buyer@,
            prev_owner: self.prev_owner@,
            recv_token_account: self.recv_token_account@,
            metadata_account: self.metadata_account@,
            authority: self.authority@,
            dead_uri: self.dead_uri@,
            dead_name: self.dead_name@,
        }
    }
}

impl BuySession {
    pub open spec fn wf(&self) -> bool {
        &&& self.asset.wf()
        &&& self.new_asset.wf()
        &&& self.buyer.wf()
        &&& self.prev_owner.wf()
        &&& self.recv_token_account.wf()
        &&& self.metadata_account.wf()
        &&& self.authority.wf()
    }
}

/// The same session at another stage.
pub open spec fn with_stage(v: BuySessionView, stage: BuyStage) -> BuySessionView {
    BuySessionView { stage, ..v }
}

/// The retired instance's metadata account is owned by the metadata program
/// and names the sold asset.
pub open spec fn metadata_valid(ctx: CallAccounts) -> bool {
    &&& ctx.metadata_owner@ == ctx.metadata_program@
    &&& ctx.metadata_mint@ == ctx.asset@
}

/// The buy transition's preconditions: a signing buyer, a repository owned
/// by this program, an oracle record naming the previous holder as holder
/// of the presented asset and, under the reissue strategy, a valid metadata
/// account for the retired instance.
pub open spec fn buy_accepted(config: Config, ctx: CallAccounts) -> bool {
    &&& ctx.caller_is_signer
    &&& ctx.repository_owner@ == config.program_id@
    &&& holder_matches(ctx.holding_data@, ctx.prev_owner@, ctx.asset@)
    &&& (config.strategy == BuyStrategy::Reissue ==> metadata_valid(ctx))
}

/// Which error a rejected buy raises: the first failing check decides.
pub open spec fn buy_rejection(config: Config, ctx: CallAccounts) -> HeroError {
    if !ctx.caller_is_signer {
        HeroError::MissingRequiredSignature
    } else if ctx.repository_owner@ != config.program_id@ {
        HeroError::IncorrectProgramId
    } else if spec_token_holding(ctx.holding_data@) is None {
        HeroError::InvalidAccountData
    } else if !holder_matches(ctx.holding_data@, ctx.prev_owner@, ctx.asset@) {
        HeroError::InvalidArgument
    } else {
        HeroError::InvalidAccountData
    }
}

/// The session a validated buy starts with.
pub open spec fn initial_buy_session(
    config: Config,
    ctx: CallAccounts,
    args: BuyArgsView,
) -> BuySessionView {
    BuySessionView {
        stage: BuyStage::AwaitTransfer,
        hero_id: args.hero_id,
        asset: ctx.asset@,
        new_asset: ctx.new_asset@,
        reissue: config.strategy == BuyStrategy::Reissue,
        buyer: ctx.caller@,
        prev_owner: ctx.prev_owner@,
        recv_token_account: ctx.caller_token_account@,
        metadata_account: ctx.metadata_account@,
        authority: config.authority@,
        dead_uri: args.dead_uri,
        dead_name: args.dead_name,
    }
}

/// Step 2 of a buy: the signed transfer of one unit from the previous
/// holder's token account to the buyer's, under the program authority.
pub open spec fn transfer_effect(config: Config, ctx: CallAccounts) -> EffectView {
    EffectView::TransferAsset {
        from: ctx.send_token_account@,
        to: ctx.caller_token_account@,
        authority: config.authority@,
        amount: 1u64,
    }
}

/// The reissue strategy's extra step: the sold instance's metadata is
/// rewritten to its terminal content pointer and name.
pub open spec fn retire_effect(s: BuySessionView) -> EffectView {
    EffectView::RetireMetadata {
        metadata_account: s.metadata_account,
        authority: s.authority,
        new_uri: s.dead_uri,
        new_name: s.dead_name,
    }
}

/// Step 3 of a buy: the buyer re-grants the program authority a delegate
/// over the received unit, for the next resale.
pub open spec fn approve_effect(s: BuySessionView) -> EffectView {
    EffectView::ApproveDelegate {
        token_account: s.recv_token_account,
        delegate: s.authority,
        owner: s.buyer,
        amount: 1u64,
    }
}

/// Step 5 of a buy: the settled price moves from the buyer to the previous
/// holder.
pub open spec fn pay_effect(s: BuySessionView, amount: u64) -> EffectView {
    EffectView::PayHolder { from: s.buyer, to: s.prev_owner, amount }
}

/// What the buy leaves in the slot: the settled price becomes the pre-buy
/// asking price, the asking price itself is unchanged, and under the
/// reissue strategy the record is rebound to the fresh asset instance.
pub open spec fn bought_record(m: RecordView, s: BuySessionView) -> RecordView {
    RecordView {
        last_price: m.listed_price,
        key_nft: if s.reissue {
            s.new_asset
        } else {
            m.key_nft
        },
        ..m
    }
}

/// After a completed buy the settled price equals the asking price the
/// record held before the sale, and the asking price itself is unchanged;
/// the slot identity and content pointer are untouched, and the asset key
/// changes only under the reissue strategy.
pub proof fn lemma_buy_settles_at_listed_price(m: RecordView, s: BuySessionView)
    ensures
        bought_record(m, s).last_price == m.listed_price,
        bought_record(m, s).listed_price == m.listed_price,
        bought_record(m, s).hero_id == m.hero_id,
        bought_record(m, s).content_uri == m.content_uri,
        !s.reissue ==> bought_record(m, s).key_nft == m.key_nft,
        s.reissue ==> bought_record(m, s).key_nft == s.new_asset,
{
}

/// The stored record lets step 4 settle: the slot holds a record matching
/// the sold asset, and that record's own slot fits the buffer.
pub open spec fn buy_settlement_ready(repo: Repository, s: BuySessionView) -> bool {
    &&& repo.slot_in_range(s.hero_id as int)
    &&& repo.record_at(s.hero_id as int) is Some
    &&& repo.record_at(s.hero_id as int).unwrap().key_nft == s.asset
    &&& repo.slot_in_range(repo.record_at(s.hero_id as int).unwrap().hero_id as int)
}

/// Which error step 4 raises when the stored record refuses the sale.
pub open spec fn buy_settlement_rejection(repo: Repository, s: BuySessionView) -> HeroError {
    if !(repo.slot_in_range(s.hero_id as int) && repo.record_at(s.hero_id as int) is Some
        && repo.record_at(s.hero_id as int).unwrap().key_nft == s.asset) {
        repo.read_rejection(s.hero_id as int, s.asset)
    } else {
        HeroError::SlotOutOfRange
    }
}

impl Processor {
    /// Validates a buy instruction (step 1: the ownership oracle must name
    /// the previous holder) and emits the asset transfer (step 2).  The
    /// repository is untouched until every step before the settlement
    /// succeeded.
    pub fn begin_buy(config: &Config, ctx: &CallAccounts, args: &BuyRecordArgs) -> (r: Result<
        (BuySession, Effect),
        HeroError,
    >)
        requires
            ctx.wf(),
            config.wf(),
        ensures
            r is Ok <==> buy_accepted(*config, *ctx),
            match r {
                Ok((session, effect)) => session@ == initial_buy_session(*config, *ctx, args@)
                    && session.wf() && effect@ == transfer_effect(*config, *ctx),
                Err(e) => e == buy_rejection(*config, *ctx),
            },
    {
        if !ctx.caller_is_signer {
            return Err(HeroError::MissingRequiredSignature);
        }
        if !ctx.repository_owner.key_eq(&config.program_id) {
            return Err(HeroError::IncorrectProgramId);
        }
        let holding = match current_holder(ctx.holding_data.as_slice()) {
            Ok(h) => h,
            Err(e) => {
                return Err(e);
            },
        };
        if !(holding.owner.key_eq(&ctx.prev_owner) && holding.mint.key_eq(&ctx.asset)
            && holding.amount >= 1) {
            return Err(HeroError::InvalidArgument);
        }
        let reissue = config.strategy == BuyStrategy::Reissue;
        if reissue {
            if !(ctx.metadata_owner.key_eq(&ctx.metadata_program) && ctx.metadata_mint.key_eq(
                &ctx.asset,
            )) {
                return Err(HeroError::InvalidAccountData);
            }
        }
        let session = BuySession {
            stage: BuyStage::AwaitTransfer,
            hero_id: args.hero_id,
            asset: ctx.asset.clone(),
            new_asset: ctx.new_asset.clone(),
            reissue,
            buyer: ctx.caller.clone(),
            prev_owner: ctx.prev_owner.clone(),
            recv_token_account: ctx.caller_token_account.clone(),
            metadata_account: ctx.metadata_account.clone(),
            authority: config.authority.clone(),
            dead_uri: slice_to_vec(args.dead_uri.as_slice()),
            dead_name: slice_to_vec(args.dead_name.as_slice()),
        };
        let effect = Effect::TransferAsset {
            from: ctx.send_token_account.clone(),
            to: ctx.caller_token_account.clone(),
            authority: config.authority.clone(),
            amount: 1,
        };
        proof {
            assert(session@ =~= initial_buy_session(*config, *ctx, args@));
        }
        Ok((session, effect))
    }

    /// Drives a buy one step further, given the host's report on the step
    /// just performed.  A failed step aborts the whole instruction with the
    /// repository untouched by this call; the settlement (step 4) runs only
    /// after transfer and re-delegation succeeded, and the payment (step 5)
    /// is emitted only after the settlement is persisted.
    pub fn advance_buy(repo: &mut Repository, session: &mut BuySession, outcome: StepOutcome) -> (r:
        Result<Option<Effect>, HeroError>)
        requires
            old(session).wf(),
            old(session).stage != BuyStage::Done,
        ensures
            final(session).wf(),
            final(session)@ == with_stage(old(session)@, final(session)@.stage),
            r is Err <==> (outcome == StepOutcome::Failed || (old(session).stage
                == BuyStage::AwaitApprove && !buy_settlement_ready(*old(repo), old(session)@))),
            match r {
                Ok(step) => outcome == StepOutcome::Succeeded && match old(session).stage {
                    BuyStage::AwaitTransfer => *final(repo) == *old(repo) && (if old(
                        session,
                    ).reissue {
                        final(session).stage == BuyStage::AwaitRetire && (step matches Some(e)
                            && e@ == retire_effect(old(session)@))
                    } else {
                        final(session).stage == BuyStage::AwaitApprove && (step matches Some(e)
                            && e@ == approve_effect(old(session)@))
                    }),
                    BuyStage::AwaitRetire => *final(repo) == *old(repo) && final(session).stage
                        == BuyStage::AwaitApprove && (step matches Some(e) && e@ == approve_effect(
                        old(session)@,
                    )),
                    BuyStage::AwaitApprove => {
                        let m = old(repo).record_at(old(session).hero_id as int).unwrap();
                        &&& buy_settlement_ready(*old(repo), old(session)@)
                        &&& wrote(*old(repo), *final(repo), bought_record(m, old(session)@))
                        &&& final(session).stage == BuyStage::AwaitPayment
                        &&& (step matches Some(e) && e@ == pay_effect(old(session)@, m.listed_price))
                    },
                    BuyStage::AwaitPayment => *final(repo) == *old(repo) && final(session).stage
                        == BuyStage::Done && step is None,
                    BuyStage::Done => false,
                },
                Err(e) => *final(repo) == *old(repo) && final(session).stage == BuyStage::Done && (
                if outcome == StepOutcome::Failed {
                    e == HeroError::ExternalCallFailure
                } else {
                    e == buy_settlement_rejection(*old(repo), old(session)@)
                }),
            },
    {
        if outcome == StepOutcome::Failed {
            session.stage = BuyStage::Done;
            return Err(HeroError::ExternalCallFailure);
        }
        match session.stage {
            BuyStage::AwaitTransfer => {
                if session.reissue {
                    session.stage = BuyStage::AwaitRetire;
                    Ok(
                        Some(
                            Effect::RetireMetadata {
                                metadata_account: session.metadata_account.clone(),
                                authority: session.authority.clone(),
                                new_uri: slice_to_vec(session.dead_uri.as_slice()),
                                new_name: slice_to_vec(session.dead_name.as_slice()),
                            },
                        ),
                    )
                } else {
                    session.stage = BuyStage::AwaitApprove;
                    Ok(
                        Some(
                            Effect::ApproveDelegate {
                                token_account: session.recv_token_account.clone(),
                                delegate: session.authority.clone(),
                                owner: session.buyer.clone(),
                                amount: 1,
                            },
                        ),
                    )
                }
            },
            BuyStage::AwaitRetire => {
                session.stage = BuyStage::AwaitApprove;
                Ok(
                    Some(
                        Effect::ApproveDelegate {
                            token_account: session.recv_token_account.clone(),
                            delegate: session.authority.clone(),
                            owner: session.buyer.clone(),
                            amount: 1,
                        },
                    ),
                )
            },
            BuyStage::AwaitApprove => {
                let rec = match repo.read(session.hero_id, &session.asset) {
                    Ok(rec) => rec,
                    Err(e) => {
                        session.stage = BuyStage::Done;
                        return Err(e);
                    },
                };
                let listed = rec.listed_price;
                let new_key = if session.reissue {
                    session.new_asset.clone()
                } else {
                    rec.key_nft
                };
                let new_rec = NFTRecord {
                    hero_id: rec.hero_id,
                    content_uri: rec.content_uri,
                    key_nft: new_key,
                    last_price: listed,
                    listed_price: listed,
                };
                match repo.write(&new_rec) {
                    Ok(()) => {},
                    Err(e) => {
                        session.stage = BuyStage::Done;
                        return Err(e);
                    },
                }
                session.stage = BuyStage::AwaitPayment;
                Ok(
                    Some(
                        Effect::PayHolder {
                            from: session.buyer.clone(),
                            to: session.prev_owner.clone(),
                            amount: listed,
                        },
                    ),
                )
            },
            BuyStage::AwaitPayment => {
                session.stage = BuyStage::Done;
                Ok(None)
            },
            BuyStage::Done => {
                proof {
                    assert(false);
                }
                Err(HeroError::ExternalCallFailure)
            },
        }
    }
}

/// What one decoded-and-validated instruction leaves behind: either the
/// finished update, or a session awaiting its first external step.
#[derive(Debug)]
pub enum Pending {
    /// An add whose delegate grant is out with the token service; finish it
    /// with `Processor::complete_add`.
    AwaitingGrant(AddSession, Effect),
    /// An update, already applied in full.
    Updated,
    /// A buy whose asset transfer is out with the token service; drive it
    /// with `Processor::advance_buy`.
    Buying(BuySession, Effect),
}

impl Processor {
    /// The dispatcher: decodes the instruction bytes, validates the caller
    /// and accounts, applies an update in place, and hands adds and buys
    /// back as sessions together with their first external step.
    pub fn process(
        repo: &mut Repository,
        config: &Config,
        accounts: &CallAccounts,
        instruction_data: &[u8],
    ) -> (r: Result<Pending, HeroError>)
        requires
            accounts.wf(),
            config.wf(),
        ensures
            match spec_unpack(instruction_data@) {
                None => *final(repo) == *old(repo) && (r matches Err(e) && e
                    == HeroError::InvalidInstruction),
                Some(iv) => match iv {
                    InstructionView::AddRecord(a) => {
                        &&& *final(repo) == *old(repo)
                        &&& (r is Ok <==> add_accepted(*config, *accounts))
                        &&& match r {
                            Ok(p) => p matches Pending::AwaitingGrant(s, e) && s.record@
                                == add_record_view(a) && s.record.wf() && e@ == add_grant_effect(
                                *config,
                                *accounts,
                            ),
                            Err(e) => e == add_rejection(*config, *accounts),
                        }
                    },
                    InstructionView::UpdateRecord(u) => {
                        &&& (r is Ok <==> update_accepted(*old(repo), *config, *accounts, u))
                        &&& match r {
                            Ok(p) => p matches Pending::Updated && wrote(
                                *old(repo),
                                *final(repo),
                                updated_record(old(repo).record_at(u.hero_id as int).unwrap(), u),
                            ),
                            Err(e) => *final(repo) == *old(repo) && e == update_rejection(
                                *old(repo),
                                *config,
                                *accounts,
                                u,
                            ),
                        }
                    },
                    InstructionView::BuyRecord(b) => {
                        &&& *final(repo) == *old(repo)
                        &&& (r is Ok <==> buy_accepted(*config, *accounts))
                        &&& match r {
                            Ok(p) => p matches Pending::Buying(s, e) && s@ == initial_buy_session(
                                *config,
                                *accounts,
                                b,
                            ) && s.wf() && e@ == transfer_effect(*config, *accounts),
                            Err(e) => e == buy_rejection(*config, *accounts),
                        }
                    },
                },
            },
    {
        let instruction = match HeroInstruction::unpack(instruction_data) {
            Ok(ins) => ins,
            Err(e) => {
                return Err(e);
            },
        };
        match instruction {
            HeroInstruction::AddRecord(args) => {
                proof {
                    assert(args.key_nft.wf());
                }
                match Processor::begin_add(config, accounts, &args) {
                    Ok((session, effect)) => Ok(Pending::AwaitingGrant(session, effect)),
                    Err(e) => Err(e),
                }
            },
            HeroInstruction::UpdateRecord(args) => {
                match Processor::process_update_record(repo, config, accounts, &args) {
                    Ok(()) => Ok(Pending::Updated),
                    Err(e) => Err(e),
                }
            },
            HeroInstruction::BuyRecord(args) => {
                match Processor::begin_buy(config, accounts, &args) {
                    Ok((session, effect)) => Ok(Pending::Buying(session, effect)),
                    Err(e) => Err(e),
                }
            },
        }
    }
}

} // verus!
