use pumpfun_client::client::PumpFunClient;
use pumpfun_client::constants;
use pumpfun_client::curve::{derive_bonding_curve_accounts, get_bonding_curve_state, CurveState};
use pumpfun_client::instructions::{
    buy_amount_out_ix, close_account_ix, create_associated_token_account_ix, sell_amount_in_ix,
    set_compute_unit_price_ix, TradeInstruction, BUY_DISCRIMINATOR, SELL_DISCRIMINATOR,
};
use pumpfun_client::{Address, PumpFunError};

fn launch_state() -> CurveState {
    CurveState {
        virtual_token_reserves: 1_073_000_000_000_000,
        virtual_sol_reserves: 30_000_000_000,
        real_token_reserves: 793_100_000_000_000,
        real_sol_reserves: 0,
        token_total_supply: 1_000_000_000_000_000,
        complete: false,
    }
}

fn wallet() -> Address {
    Address { bytes: [3u8; 32] }
}

fn mint() -> Address {
    Address { bytes: [5u8; 32] }
}

fn to_solana_ix(ix: &TradeInstruction) -> solana_sdk::instruction::Instruction {
    solana_sdk::instruction::Instruction {
        program_id: solana_sdk::pubkey::Pubkey::new_from_array(ix.program_id.bytes),
        accounts: ix
            .accounts
            .iter()
            .map(|a| solana_sdk::instruction::AccountMeta {
                pubkey: solana_sdk::pubkey::Pubkey::new_from_array(a.address.bytes),
                is_signer: a.is_signer,
                is_writable: a.is_writable,
            })
            .collect(),
        data: ix.data.clone(),
    }
}

#[test]
fn fetch_of_absent_account_is_not_found() {
    assert_eq!(
        get_bonding_curve_state(None),
        Err(PumpFunError::AccountNotFoundError)
    );
}

#[test]
fn fetch_of_valid_account_decodes() {
    let s = launch_state();
    assert_eq!(get_bonding_curve_state(Some(s.encode())), Ok(s));
}

#[test]
fn get_price_fails_on_complete_curve() {
    let mut s = launch_state();
    s.complete = true;
    let client = PumpFunClient::new(wallet());
    assert_eq!(
        client.get_price(Some(s.encode())),
        Err(PumpFunError::CurveCompleteError)
    );
}

#[test]
fn get_price_returns_reserve_ratio() {
    let client = PumpFunClient::new(wallet());
    let p = client.get_price(Some(launch_state().encode())).unwrap();
    assert_eq!(p.numerator, 30_000_000_000);
    assert_eq!(p.denominator, 1_073_000_000_000_000_000);
}

#[test]
fn get_price_of_absent_account_is_not_found() {
    let client = PumpFunClient::new(wallet());
    assert_eq!(
        client.get_price(None),
        Err(PumpFunError::AccountNotFoundError)
    );
}

#[test]
fn buy_on_complete_curve_fails_with_no_instruction() {
    let mut s = launch_state();
    s.complete = true;
    let mut client = PumpFunClient::new(wallet());
    let r = client.create_buy_transaction(&mint(), Some(s.encode()), 1_000_000_000, 1000, false, 0);
    assert_eq!(r, Err(PumpFunError::CurveCompleteError));
}

#[test]
fn sell_on_complete_curve_fails_with_no_instruction() {
    let mut s = launch_state();
    s.complete = true;
    let mut client = PumpFunClient::new(wallet());
    let r =
        client.create_sell_transaction(&mint(), Some(s.encode()), 1_000_000_000, 1000, false, 0);
    assert_eq!(r, Err(PumpFunError::CurveCompleteError));
}

#[test]
fn buy_rejects_out_of_range_slippage() {
    let mut client = PumpFunClient::new(wallet());
    let r = client.create_buy_transaction(
        &mint(),
        Some(launch_state().encode()),
        1_000_000_000,
        10001,
        false,
        0,
    );
    assert_eq!(r, Err(PumpFunError::InvalidInputError));
}

#[test]
fn buy_rejects_zero_amount() {
    let mut client = PumpFunClient::new(wallet());
    let r = client.create_buy_transaction(&mint(), Some(launch_state().encode()), 0, 1000, false, 0);
    assert_eq!(r, Err(PumpFunError::InvalidInputError));
}

#[test]
fn buy_of_absent_account_is_not_found() {
    let mut client = PumpFunClient::new(wallet());
    let r = client.create_buy_transaction(&mint(), None, 1_000_000_000, 1000, false, 0);
    assert_eq!(r, Err(PumpFunError::AccountNotFoundError));
}

#[test]
fn buy_of_malformed_account_is_decode_error() {
    let mut client = PumpFunClient::new(wallet());
    let r = client.create_buy_transaction(&mint(), Some(vec![0u8; 40]), 1_000_000_000, 1000, false, 0);
    assert_eq!(r, Err(PumpFunError::DecodeError));
}

#[test]
fn buy_transaction_holds_exactly_the_quoted_buy() {
    let mut client = PumpFunClient::new(wallet());
    let ixs = client
        .create_buy_transaction(&mint(), Some(launch_state().encode()), 1_000_000_000, 1000, false, 0)
        .unwrap();
    assert_eq!(ixs.len(), 1);
    let ix = &ixs[0];
    assert_eq!(ix.program_id.bytes, constants::PUMPFUN_PROGRAM_ID);
    assert_eq!(ix.accounts.len(), 12);
    let (bc, abc) = derive_bonding_curve_accounts(&mint());
    assert_eq!(ix.accounts[0].address.bytes, constants::PUMPFUN_GLOBAL);
    assert_eq!(ix.accounts[1].address.bytes, constants::PUMPFUN_FEE_RECIPIENT);
    assert_eq!(ix.accounts[2].address.bytes, mint().bytes);
    assert_eq!(ix.accounts[3].address.bytes, bc.bytes);
    assert_eq!(ix.accounts[4].address.bytes, abc.bytes);
    assert_eq!(ix.accounts[6].address.bytes, wallet().bytes);
    assert!(ix.accounts[6].is_signer && ix.accounts[6].is_writable);
    assert_eq!(ix.accounts[9].address.bytes, constants::SYSTEM_RENT_PROGRAM_ID);
    let mut expected_data = BUY_DISCRIMINATOR.to_vec();
    expected_data.extend_from_slice(&35_766_666_666_666u64.to_le_bytes());
    expected_data.extend_from_slice(&1_100_000_000u64.to_le_bytes());
    assert_eq!(ix.data, expected_data);
}

#[test]
fn buy_transaction_prepends_fee_and_creation() {
    let mut client = PumpFunClient::new(wallet());
    let ixs = client
        .create_buy_transaction(&mint(), Some(launch_state().encode()), 1_000_000_000, 1000, true, 77)
        .unwrap();
    assert_eq!(ixs.len(), 3);
    assert_eq!(ixs[0].program_id.bytes, constants::COMPUTE_BUDGET_PROGRAM_ID);
    assert_eq!(ixs[1].program_id.bytes, constants::ASSOC_TOKEN_ACC_PROGRAM_ID);
    assert_eq!(ixs[2].program_id.bytes, constants::PUMPFUN_PROGRAM_ID);
    assert_eq!(&ixs[2].data[0..8], &BUY_DISCRIMINATOR);
}

#[test]
fn sell_transaction_holds_exactly_the_quoted_sell() {
    let mut client = PumpFunClient::new(wallet());
    let ixs = client
        .create_sell_transaction(
            &mint(),
            Some(launch_state().encode()),
            35_766_666_666_666,
            1000,
            false,
            0,
        )
        .unwrap();
    assert_eq!(ixs.len(), 1);
    let ix = &ixs[0];
    assert_eq!(ix.program_id.bytes, constants::PUMPFUN_PROGRAM_ID);
    assert_eq!(ix.accounts.len(), 12);
    assert_eq!(ix.accounts[8].address.bytes, constants::ASSOC_TOKEN_ACC_PROGRAM_ID);
    assert_eq!(ix.accounts[9].address.bytes, constants::TOKEN_PROGRAM_ID);
    let mut expected_data = SELL_DISCRIMINATOR.to_vec();
    expected_data.extend_from_slice(&35_766_666_666_666u64.to_le_bytes());
    expected_data.extend_from_slice(&(999_999_999u64 - 99_999_999).to_le_bytes());
    assert_eq!(ix.data, expected_data);
}

#[test]
fn sell_transaction_appends_close_after_sell() {
    let mut client = PumpFunClient::new(wallet());
    let ixs = client
        .create_sell_transaction(&mint(), Some(launch_state().encode()), 1_000_000, 1000, true, 77)
        .unwrap();
    assert_eq!(ixs.len(), 3);
    assert_eq!(ixs[0].program_id.bytes, constants::COMPUTE_BUDGET_PROGRAM_ID);
    assert_eq!(&ixs[1].data[0..8], &SELL_DISCRIMINATOR);
    assert_eq!(ixs[2].program_id.bytes, constants::TOKEN_PROGRAM_ID);
    assert_eq!(ixs[2].data, vec![9u8]);
}

#[test]
fn compute_unit_price_matches_reference_builder() {
    let mine = to_solana_ix(&set_compute_unit_price_ix(987_654));
    let theirs =
        solana_sdk::compute_budget::ComputeBudgetInstruction::set_compute_unit_price(987_654);
    assert_eq!(mine.program_id, theirs.program_id);
    assert_eq!(mine.data, theirs.data);
    assert!(mine.accounts.is_empty() && theirs.accounts.is_empty());
}

#[test]
fn create_ata_matches_reference_builder() {
    let wallet_pk = solana_sdk::pubkey::Pubkey::new_from_array(wallet().bytes);
    let mint_pk = solana_sdk::pubkey::Pubkey::new_from_array(mint().bytes);
    let ata_pk = spl_associated_token_account::get_associated_token_address(&wallet_pk, &mint_pk);
    let mine = to_solana_ix(&create_associated_token_account_ix(
        &wallet(),
        &Address { bytes: ata_pk.to_bytes() },
        &mint(),
    ));
    let theirs = spl_associated_token_account::instruction::create_associated_token_account(
        &wallet_pk,
        &wallet_pk,
        &mint_pk,
        &spl_token::id(),
    );
    assert_eq!(mine.program_id, theirs.program_id);
    assert_eq!(mine.data, theirs.data);
    assert_eq!(mine.accounts, theirs.accounts);
}

#[test]
fn close_account_matches_reference_builder() {
    let wallet_pk = solana_sdk::pubkey::Pubkey::new_from_array(wallet().bytes);
    let ata_pk = spl_associated_token_account::get_associated_token_address(
        &wallet_pk,
        &solana_sdk::pubkey::Pubkey::new_from_array(mint().bytes),
    );
    let mine = to_solana_ix(&close_account_ix(&Address { bytes: ata_pk.to_bytes() }, &wallet()));
    let theirs = spl_token::instruction::close_account(
        &spl_token::id(),
        &ata_pk,
        &wallet_pk,
        &wallet_pk,
        &[],
    )
    .unwrap();
    assert_eq!(mine.program_id, theirs.program_id);
    assert_eq!(mine.data, theirs.data);
    assert_eq!(mine.accounts, theirs.accounts);
}

#[test]
fn trade_instructions_survive_transaction_assembly() {
    let (bc, abc) = derive_bonding_curve_accounts(&mint());
    let ata = Address { bytes: [8u8; 32] };
    let keypair = solana_sdk::signature::Keypair::new();
    let payer = solana_sdk::signer::Signer::pubkey(&keypair);
    let signer = Address { bytes: payer.to_bytes() };
    let buy = buy_amount_out_ix(&mint(), &bc, &abc, &signer, &ata, 1, 2);
    let sell = sell_amount_in_ix(&mint(), &bc, &abc, &signer, &ata, 3, 4);
    let tx = solana_sdk::transaction::Transaction::new_signed_with_payer(
        &[to_solana_ix(&buy), to_solana_ix(&sell)],
        Some(&payer),
        &[&keypair],
        solana_sdk::hash::Hash::default(),
    );
    assert_eq!(tx.message.instructions.len(), 2);
    assert_eq!(&tx.message.instructions[0].data[0..8], &BUY_DISCRIMINATOR);
    assert_eq!(&tx.message.instructions[1].data[0..8], &SELL_DISCRIMINATOR);
}
