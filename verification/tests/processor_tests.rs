use hero_ledger::coordinator::{BuyStrategy, Config, Effect};
use hero_ledger::error::HeroError;
use hero_ledger::keys::Key;
use hero_ledger::processor::{
    AddRecordArgs, BuyRecordArgs, CallAccounts, Pending, Processor, StepOutcome, UpdateRecordArgs,
};
use hero_ledger::record::NFTRecord;
use hero_ledger::repository::Repository;

fn key(b: u8) -> Key {
    Key { bytes: vec![b; 32] }
}

const PROGRAM: u8 = 0x22;
const AUTHORITY: u8 = 0x11;
const ASSET: u8 = 0xAA;
const BUYER: u8 = 0xBB;
const PREV_OWNER: u8 = 0xCC;
const SEND_ACCT: u8 = 0xDD;
const RECV_ACCT: u8 = 0xEE;

fn config(strategy: BuyStrategy) -> Config {
    Config { program_id: key(PROGRAM), authority: key(AUTHORITY), strategy }
}

/// A well-formed token-holding record in the external token service's
/// layout: mint, owner, little-endian amount, all optional fields absent.
fn holding(owner: &Key, mint: &Key, amount: u64) -> Vec<u8> {
    let mut data = vec![0u8; 165];
    data[0..32].copy_from_slice(&mint.bytes);
    data[32..64].copy_from_slice(&owner.bytes);
    data[64..72].copy_from_slice(&amount.to_le_bytes());
    data[108] = 1;
    data
}

fn accounts(caller: u8, holding_data: Vec<u8>) -> CallAccounts {
    CallAccounts {
        caller: key(caller),
        caller_is_signer: true,
        repository_owner: key(PROGRAM),
        caller_token_account: key(RECV_ACCT),
        prev_owner: key(PREV_OWNER),
        send_token_account: key(SEND_ACCT),
        holding_data,
        asset: key(ASSET),
        metadata_account: key(0x33),
        metadata_owner: key(0x44),
        metadata_program: key(0x44),
        metadata_mint: key(ASSET),
        new_asset: key(0x55),
    }
}

fn add_args(slot: u8) -> AddRecordArgs {
    AddRecordArgs {
        hero_id: slot,
        content_uri: b"ipfs://hero".to_vec(),
        key_nft: key(ASSET),
        last_price: 100,
        listed_price: 150,
    }
}

fn seeded_repo() -> Repository {
    let mut repo = Repository::new(1);
    let rec = NFTRecord::new(0, b"ipfs://hero".to_vec(), key(ASSET), 100, 150);
    repo.write(&rec).unwrap();
    repo
}

#[test]
fn add_grants_then_writes() {
    let cfg = config(BuyStrategy::Resell);
    let ctx = accounts(PREV_OWNER, vec![]);
    let mut repo = Repository::new(1);
    let (session, effect) = Processor::begin_add(&cfg, &ctx, &add_args(0)).unwrap();
    assert_eq!(
        effect,
        Effect::ApproveDelegate {
            token_account: key(RECV_ACCT),
            delegate: key(AUTHORITY),
            owner: key(PREV_OWNER),
            amount: 1,
        }
    );
    let before = repo.data.clone();
    Processor::complete_add(&mut repo, session, StepOutcome::Succeeded).unwrap();
    assert_ne!(repo.data, before);
    let rec = repo.read(0, &key(ASSET)).unwrap();
    assert_eq!(rec.last_price, 100);
    assert_eq!(rec.listed_price, 150);
    assert_eq!(rec.content_uri, b"ipfs://hero".to_vec());
}

#[test]
fn add_never_succeeds_without_signer() {
    let cfg = config(BuyStrategy::Resell);
    let mut ctx = accounts(PREV_OWNER, vec![]);
    ctx.caller_is_signer = false;
    assert_eq!(
        Processor::begin_add(&cfg, &ctx, &add_args(0)).unwrap_err(),
        HeroError::MissingRequiredSignature
    );
}

#[test]
fn add_rejects_foreign_repository() {
    let cfg = config(BuyStrategy::Resell);
    let mut ctx = accounts(PREV_OWNER, vec![]);
    ctx.repository_owner = key(0x99);
    assert_eq!(
        Processor::begin_add(&cfg, &ctx, &add_args(0)).unwrap_err(),
        HeroError::IncorrectProgramId
    );
}

#[test]
fn add_writes_nothing_when_grant_fails() {
    let cfg = config(BuyStrategy::Resell);
    let ctx = accounts(PREV_OWNER, vec![]);
    let mut repo = Repository::new(1);
    let before = repo.data.clone();
    let (session, _effect) = Processor::begin_add(&cfg, &ctx, &add_args(0)).unwrap();
    assert_eq!(
        Processor::complete_add(&mut repo, session, StepOutcome::Failed).unwrap_err(),
        HeroError::ExternalCallFailure
    );
    assert_eq!(repo.data, before);
}

#[test]
fn add_out_of_range_slot_never_writes() {
    let cfg = config(BuyStrategy::Resell);
    let ctx = accounts(PREV_OWNER, vec![]);
    let mut repo = Repository::new(1);
    let before = repo.data.clone();
    let (session, _effect) = Processor::begin_add(&cfg, &ctx, &add_args(1)).unwrap();
    assert_eq!(
        Processor::complete_add(&mut repo, session, StepOutcome::Succeeded).unwrap_err(),
        HeroError::SlotOutOfRange
    );
    assert_eq!(repo.data, before);
}

fn update_args(new_price: u64, uri: &[u8]) -> UpdateRecordArgs {
    UpdateRecordArgs {
        hero_id: 0,
        key_nft: key(ASSET),
        new_price,
        content_uri: uri.to_vec(),
    }
}

#[test]
fn update_changes_only_price_and_uri() {
    let cfg = config(BuyStrategy::Resell);
    let mut repo = seeded_repo();
    let holder = holding(&key(PREV_OWNER), &key(ASSET), 1);
    let ctx = accounts(PREV_OWNER, holder);
    Processor::process_update_record(&mut repo, &cfg, &ctx, &update_args(900, b"new://uri"))
        .unwrap();
    let rec = repo.read(0, &key(ASSET)).unwrap();
    assert_eq!(rec.listed_price, 900);
    assert_eq!(rec.content_uri, b"new://uri".to_vec());
    // Everything else is bit-identical to before.
    assert_eq!(rec.hero_id, 0);
    assert_eq!(rec.key_nft, key(ASSET));
    assert_eq!(rec.last_price, 100);
}

#[test]
fn update_never_succeeds_for_wrong_holder() {
    let cfg = config(BuyStrategy::Resell);
    let mut repo = seeded_repo();
    let before = repo.data.clone();
    // The oracle names someone else as the holder.
    let holder = holding(&key(0x77), &key(ASSET), 1);
    let ctx = accounts(PREV_OWNER, holder);
    assert_eq!(
        Processor::process_update_record(&mut repo, &cfg, &ctx, &update_args(900, b"u"))
            .unwrap_err(),
        HeroError::InvalidArgument
    );
    // The oracle names another asset.
    let holder = holding(&key(PREV_OWNER), &key(0x77), 1);
    let ctx = accounts(PREV_OWNER, holder);
    assert_eq!(
        Processor::process_update_record(&mut repo, &cfg, &ctx, &update_args(900, b"u"))
            .unwrap_err(),
        HeroError::InvalidArgument
    );
    assert_eq!(repo.data, before);
}

#[test]
fn update_rejects_malformed_holding_record() {
    let cfg = config(BuyStrategy::Resell);
    let mut repo = seeded_repo();
    let ctx = accounts(PREV_OWNER, vec![0u8; 164]);
    assert_eq!(
        Processor::process_update_record(&mut repo, &cfg, &ctx, &update_args(1, b"u"))
            .unwrap_err(),
        HeroError::InvalidAccountData
    );
    // A holding record with a malformed optional-field tag.
    let mut bad = holding(&key(PREV_OWNER), &key(ASSET), 1);
    bad[72] = 7;
    let ctx = accounts(PREV_OWNER, bad);
    assert_eq!(
        Processor::process_update_record(&mut repo, &cfg, &ctx, &update_args(1, b"u"))
            .unwrap_err(),
        HeroError::InvalidAccountData
    );
}

#[test]
fn update_rejects_stored_key_mismatch() {
    let cfg = config(BuyStrategy::Resell);
    let mut repo = seeded_repo();
    let before = repo.data.clone();
    let other = key(0x66);
    let holder = holding(&key(PREV_OWNER), &other, 1);
    let mut ctx = accounts(PREV_OWNER, holder);
    ctx.asset = other.clone();
    let args = UpdateRecordArgs {
        hero_id: 0,
        key_nft: other,
        new_price: 5,
        content_uri: b"u".to_vec(),
    };
    assert_eq!(
        Processor::process_update_record(&mut repo, &cfg, &ctx, &args).unwrap_err(),
        HeroError::InvalidNFTKey
    );
    assert_eq!(repo.data, before);
}

fn buy_args() -> BuyRecordArgs {
    BuyRecordArgs {
        hero_id: 0,
        dead_uri: b"dead://uri".to_vec(),
        dead_name: b"RETIRED".to_vec(),
    }
}

#[test]
fn buy_scenario_settles_at_listed_price() {
    // One slot holding {asset A, last 100, listed 150}; buyer B buys it
    // from the previous holder under the resell strategy.
    let cfg = config(BuyStrategy::Resell);
    let mut repo = seeded_repo();
    let ctx = accounts(BUYER, holding(&key(PREV_OWNER), &key(ASSET), 1));
    let (mut session, transfer) = Processor::begin_buy(&cfg, &ctx, &buy_args()).unwrap();
    assert_eq!(
        transfer,
        Effect::TransferAsset {
            from: key(SEND_ACCT),
            to: key(RECV_ACCT),
            authority: key(AUTHORITY),
            amount: 1,
        }
    );
    let approve = Processor::advance_buy(&mut repo, &mut session, StepOutcome::Succeeded)
        .unwrap()
        .unwrap();
    assert_eq!(
        approve,
        Effect::ApproveDelegate {
            token_account: key(RECV_ACCT),
            delegate: key(AUTHORITY),
            owner: key(BUYER),
            amount: 1,
        }
    );
    let pay = Processor::advance_buy(&mut repo, &mut session, StepOutcome::Succeeded)
        .unwrap()
        .unwrap();
    assert_eq!(
        pay,
        Effect::PayHolder { from: key(BUYER), to: key(PREV_OWNER), amount: 150 }
    );
    let done = Processor::advance_buy(&mut repo, &mut session, StepOutcome::Succeeded).unwrap();
    assert!(done.is_none());
    let rec = repo.read(0, &key(ASSET)).unwrap();
    assert_eq!(rec.last_price, 150);
    assert_eq!(rec.listed_price, 150);
    assert_eq!(rec.key_nft, key(ASSET));
    assert_eq!(rec.content_uri, b"ipfs://hero".to_vec());
}

#[test]
fn buy_reissue_retires_and_rebinds() {
    let cfg = config(BuyStrategy::Reissue);
    let mut repo = seeded_repo();
    let ctx = accounts(BUYER, holding(&key(PREV_OWNER), &key(ASSET), 1));
    let (mut session, _transfer) = Processor::begin_buy(&cfg, &ctx, &buy_args()).unwrap();
    let retire = Processor::advance_buy(&mut repo, &mut session, StepOutcome::Succeeded)
        .unwrap()
        .unwrap();
    assert_eq!(
        retire,
        Effect::RetireMetadata {
            metadata_account: key(0x33),
            authority: key(AUTHORITY),
            new_uri: b"dead://uri".to_vec(),
            new_name: b"RETIRED".to_vec(),
        }
    );
    let _approve = Processor::advance_buy(&mut repo, &mut session, StepOutcome::Succeeded)
        .unwrap()
        .unwrap();
    let pay = Processor::advance_buy(&mut repo, &mut session, StepOutcome::Succeeded)
        .unwrap()
        .unwrap();
    assert_eq!(
        pay,
        Effect::PayHolder { from: key(BUYER), to: key(PREV_OWNER), amount: 150 }
    );
    Processor::advance_buy(&mut repo, &mut session, StepOutcome::Succeeded).unwrap();
    // The record is rebound to the fresh instance; the old key is refused.
    assert_eq!(repo.read(0, &key(ASSET)).unwrap_err(), HeroError::InvalidNFTKey);
    let rec = repo.read(0, &key(0x55)).unwrap();
    assert_eq!(rec.last_price, 150);
    assert_eq!(rec.listed_price, 150);
}

#[test]
fn buy_never_succeeds_for_wrong_holder() {
    let cfg = config(BuyStrategy::Resell);
    let ctx = accounts(BUYER, holding(&key(0x77), &key(ASSET), 1));
    assert_eq!(
        Processor::begin_buy(&cfg, &ctx, &buy_args()).unwrap_err(),
        HeroError::InvalidArgument
    );
    let mut ctx = accounts(BUYER, holding(&key(PREV_OWNER), &key(ASSET), 1));
    ctx.caller_is_signer = false;
    assert_eq!(
        Processor::begin_buy(&cfg, &ctx, &buy_args()).unwrap_err(),
        HeroError::MissingRequiredSignature
    );
}

#[test]
fn buy_reissue_rejects_invalid_metadata() {
    let cfg = config(BuyStrategy::Reissue);
    let mut ctx = accounts(BUYER, holding(&key(PREV_OWNER), &key(ASSET), 1));
    ctx.metadata_mint = key(0x77);
    assert_eq!(
        Processor::begin_buy(&cfg, &ctx, &buy_args()).unwrap_err(),
        HeroError::InvalidAccountData
    );
}

#[test]
fn buy_aborts_cleanly_at_every_step() {
    // Force a failure at each external step in turn and check that the
    // repository is never mutated and the payment step is never reached.
    for fail_at in 0..3usize {
        let cfg = config(BuyStrategy::Reissue);
        let mut repo = seeded_repo();
        let before = repo.data.clone();
        let ctx = accounts(BUYER, holding(&key(PREV_OWNER), &key(ASSET), 1));
        let (mut session, _transfer) = Processor::begin_buy(&cfg, &ctx, &buy_args()).unwrap();
        let mut emitted = Vec::new();
        let mut aborted = false;
        for step in 0..4usize {
            let outcome = if step == fail_at { StepOutcome::Failed } else { StepOutcome::Succeeded };
            match Processor::advance_buy(&mut repo, &mut session, outcome) {
                Ok(Some(e)) => emitted.push(e),
                Ok(None) => break,
                Err(e) => {
                    assert_eq!(e, HeroError::ExternalCallFailure);
                    aborted = true;
                    break;
                },
            }
        }
        assert!(aborted);
        // Failures at the transfer, retire and approve steps leave the
        // repository untouched and never emit the payment effect.
        assert_eq!(repo.data, before, "repository mutated for failure at step {}", fail_at);
        assert!(
            !emitted.iter().any(|e| matches!(e, Effect::PayHolder { .. })),
            "payment emitted for failure at step {}",
            fail_at
        );
    }
}

#[test]
fn buy_settlement_failure_blocks_payment() {
    // Step 4 fails: the stored record names another asset.  The transfer
    // and approval already went out, but no payment is ever emitted and
    // the repository is untouched.
    let cfg = config(BuyStrategy::Resell);
    let mut repo = Repository::new(1);
    let rec = NFTRecord::new(0, b"ipfs://hero".to_vec(), key(0x66), 100, 150);
    repo.write(&rec).unwrap();
    let before = repo.data.clone();
    let ctx = accounts(BUYER, holding(&key(PREV_OWNER), &key(ASSET), 1));
    let (mut session, _transfer) = Processor::begin_buy(&cfg, &ctx, &buy_args()).unwrap();
    let _approve = Processor::advance_buy(&mut repo, &mut session, StepOutcome::Succeeded)
        .unwrap()
        .unwrap();
    assert_eq!(
        Processor::advance_buy(&mut repo, &mut session, StepOutcome::Succeeded).unwrap_err(),
        HeroError::InvalidNFTKey
    );
    assert_eq!(repo.data, before);
}

#[test]
fn buy_payment_failure_aborts_instruction() {
    let cfg = config(BuyStrategy::Resell);
    let mut repo = seeded_repo();
    let ctx = accounts(BUYER, holding(&key(PREV_OWNER), &key(ASSET), 1));
    let (mut session, _transfer) = Processor::begin_buy(&cfg, &ctx, &buy_args()).unwrap();
    let _approve = Processor::advance_buy(&mut repo, &mut session, StepOutcome::Succeeded).unwrap();
    let _pay = Processor::advance_buy(&mut repo, &mut session, StepOutcome::Succeeded).unwrap();
    assert_eq!(
        Processor::advance_buy(&mut repo, &mut session, StepOutcome::Failed).unwrap_err(),
        HeroError::ExternalCallFailure
    );
}

#[test]
fn process_dispatches_all_three_operations() {
    let cfg = config(BuyStrategy::Resell);
    let mut repo = Repository::new(1);

    // Add.
    let mut add = vec![0u8, 0];
    add.extend_from_slice(&(4u32).to_le_bytes());
    add.extend_from_slice(b"uri0");
    add.extend_from_slice(&[ASSET; 32]);
    add.extend_from_slice(&100u64.to_le_bytes());
    add.extend_from_slice(&150u64.to_le_bytes());
    let ctx = accounts(PREV_OWNER, vec![]);
    match Processor::process(&mut repo, &cfg, &ctx, &add).unwrap() {
        Pending::AwaitingGrant(session, _effect) => {
            Processor::complete_add(&mut repo, session, StepOutcome::Succeeded).unwrap();
        },
        other => panic!("wrong pending: {:?}", other),
    }
    assert_eq!(repo.read(0, &key(ASSET)).unwrap().listed_price, 150);

    // Update.
    let mut upd = vec![1u8, 0];
    upd.extend_from_slice(&[ASSET; 32]);
    upd.extend_from_slice(&700u64.to_le_bytes());
    upd.extend_from_slice(&(4u32).to_le_bytes());
    upd.extend_from_slice(b"uri1");
    let ctx = accounts(PREV_OWNER, holding(&key(PREV_OWNER), &key(ASSET), 1));
    match Processor::process(&mut repo, &cfg, &ctx, &upd).unwrap() {
        Pending::Updated => {},
        other => panic!("wrong pending: {:?}", other),
    }
    assert_eq!(repo.read(0, &key(ASSET)).unwrap().listed_price, 700);

    // Buy.
    let buy = vec![2u8, 0, 0, 0, 0, 0, 0, 0, 0, 0];
    let ctx = accounts(BUYER, holding(&key(PREV_OWNER), &key(ASSET), 1));
    match Processor::process(&mut repo, &cfg, &ctx, &buy).unwrap() {
        Pending::Buying(mut session, _transfer) => {
            Processor::advance_buy(&mut repo, &mut session, StepOutcome::Succeeded).unwrap();
            Processor::advance_buy(&mut repo, &mut session, StepOutcome::Succeeded).unwrap();
            Processor::advance_buy(&mut repo, &mut session, StepOutcome::Succeeded).unwrap();
        },
        other => panic!("wrong pending: {:?}", other),
    }
    assert_eq!(repo.read(0, &key(ASSET)).unwrap().last_price, 700);

    // An unknown tag changes nothing.
    let before = repo.data.clone();
    assert_eq!(
        Processor::process(&mut repo, &cfg, &ctx, &[9u8]).unwrap_err(),
        HeroError::InvalidInstruction
    );
    assert_eq!(repo.data, before);
}

#[test]
fn update_out_of_range_slot_never_writes() {
    let cfg = config(BuyStrategy::Resell);
    let mut repo = seeded_repo();
    let before = repo.data.clone();
    let ctx = accounts(PREV_OWNER, holding(&key(PREV_OWNER), &key(ASSET), 1));
    let args = UpdateRecordArgs {
        hero_id: 1,
        key_nft: key(ASSET),
        new_price: 5,
        content_uri: b"u".to_vec(),
    };
    assert_eq!(
        Processor::process_update_record(&mut repo, &cfg, &ctx, &args).unwrap_err(),
        HeroError::SlotOutOfRange
    );
    assert_eq!(repo.data, before);
}

#[test]
fn zero_amount_holding_authorizes_nothing() {
    // The oracle's record matches on identity but holds no unit of the
    // asset: neither update nor buy may proceed.
    let cfg = config(BuyStrategy::Resell);
    let mut repo = seeded_repo();
    let before = repo.data.clone();
    let ctx = accounts(PREV_OWNER, holding(&key(PREV_OWNER), &key(ASSET), 0));
    assert_eq!(
        Processor::process_update_record(&mut repo, &cfg, &ctx, &update_args(900, b"u"))
            .unwrap_err(),
        HeroError::InvalidArgument
    );
    assert_eq!(repo.data, before);
    let ctx = accounts(BUYER, holding(&key(PREV_OWNER), &key(ASSET), 0));
    assert_eq!(
        Processor::begin_buy(&cfg, &ctx, &buy_args()).unwrap_err(),
        HeroError::InvalidArgument
    );
}
