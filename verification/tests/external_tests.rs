//! Tests that hold the library's trusted contracts against the real
//! external crates: the token service's own packing of a holding record,
//! and the runtime's own derivation of the program authority.

use hero_ledger::coordinator::{BuyStrategy, Config};
use hero_ledger::keys::Key;
use hero_ledger::oracle::current_holder;

use spl_token::solana_program::program_option::COption;
use spl_token::solana_program::program_pack::Pack;
use spl_token::state::{Account, AccountState};

fn key(b: u8) -> Key {
    Key { bytes: vec![b; 32] }
}

#[test]
fn oracle_reads_a_record_the_token_service_packed() {
    let mint = spl_token::solana_program::pubkey::Pubkey::new_from_array([3u8; 32]);
    let owner = spl_token::solana_program::pubkey::Pubkey::new_from_array([4u8; 32]);
    let account = Account {
        mint,
        owner,
        amount: 5,
        delegate: COption::None,
        state: AccountState::Initialized,
        is_native: COption::None,
        delegated_amount: 0,
        close_authority: COption::None,
    };
    let mut data = vec![0u8; Account::LEN];
    Account::pack(account, &mut data).unwrap();
    let h = current_holder(&data).unwrap();
    assert_eq!(h.mint, key(3));
    assert_eq!(h.owner, key(4));
    assert_eq!(h.amount, 5);
}

#[test]
fn oracle_rejects_what_the_token_service_rejects() {
    let mint = spl_token::solana_program::pubkey::Pubkey::new_from_array([3u8; 32]);
    let owner = spl_token::solana_program::pubkey::Pubkey::new_from_array([4u8; 32]);
    let account = Account {
        mint,
        owner,
        amount: 5,
        delegate: COption::None,
        state: AccountState::Initialized,
        is_native: COption::None,
        delegated_amount: 0,
        close_authority: COption::None,
    };
    let mut data = vec![0u8; Account::LEN];
    Account::pack(account, &mut data).unwrap();
    // A malformed optional-field tag makes the record unreadable for the
    // token service and for the oracle alike.
    data[72] = 9;
    assert!(Account::unpack_from_slice(&data).is_err());
    assert!(current_holder(&data).is_err());
    // So does a wrong width.
    assert!(current_holder(&data[..164]).is_err());
}

#[test]
fn config_authority_matches_the_runtime_derivation() {
    let program_id = key(0x22);
    let cfg = Config::new(program_id, BuyStrategy::Resell).unwrap();
    let pid = solana_program::pubkey::Pubkey::new_from_array([0x22u8; 32]);
    let (expected, _bump) =
        solana_program::pubkey::Pubkey::find_program_address(&[b"hallofheros"], &pid);
    assert_eq!(cfg.authority.bytes, expected.to_bytes().to_vec());
    assert_eq!(cfg.program_id, key(0x22));
}
