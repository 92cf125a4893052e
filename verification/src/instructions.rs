//! Byte-exact construction of the instructions a trade transaction carries.
//! Discriminators and account ordering are a bit-exact contract with the
//! deployed on-chain programs: any deviation is rejected at the chain, not
//! here, so the builders validate nothing and pin everything.

use vstd::prelude::*;

use crate::Address;
use crate::constants::ASSOC_TOKEN_ACC_PROGRAM_ID;
use crate::constants::COMPUTE_BUDGET_PROGRAM_ID;
use crate::constants::EVENT_AUTHORITY;
use crate::constants::PUMPFUN_FEE_RECIPIENT;
use crate::constants::PUMPFUN_GLOBAL;
use crate::constants::PUMPFUN_PROGRAM_ID;
use crate::constants::SYSTEM_PROGRAM_ID;
use crate::constants::SYSTEM_RENT_PROGRAM_ID;
use crate::constants::TOKEN_PROGRAM_ID;
use crate::curve::le_bytes64;

verus! {

/// Fixed eight-byte discriminator of the buy operation.
pub const BUY_DISCRIMINATOR: [u8; 8] = [0x66, 0x06, 0x3d, 0x12, 0x01, 0xda, 0xeb, 0xea];

/// Fixed eight-byte discriminator of the sell operation.
pub const SELL_DISCRIMINATOR: [u8; 8] = [0x33, 0xe6, 0x85, 0xa4, 0x01, 0x7f, 0x83, 0xad];

/// One account reference an instruction carries, tagged read/write and
/// signer/non-signer.
#[derive(Clone, Copy, Debug, PartialEq, Eq)]
pub struct AccountRef {
    pub address: Address,
    pub is_writable: bool,
    pub is_signer: bool,
}

/// One instruction: the program it invokes, its ordered account references,
/// and its opaque byte payload. Immutable once built.
#[derive(Clone, Debug, PartialEq, Eq)]
pub struct TradeInstruction {
    pub program_id: Address,
    pub accounts: Vec<AccountRef>,
    pub data: Vec<u8>,
}

/// Whether `a` references `addr` with exactly the given tags.
pub open spec fn refs(a: AccountRef, addr: Seq<u8>, writable: bool, signer: bool) -> bool {
    a.address@ == addr && a.is_writable == writable && a.is_signer == signer
}

/// The payload of a trade operation: discriminator, then two 64-bit
/// little-endian arguments.
pub open spec fn trade_payload(tag: Seq<u8>, first: u64, second: u64) -> Seq<u8> {
    tag + le_bytes64(first) + le_bytes64(second)
}

/// Whether `ix` is exactly the buy instruction for these accounts and
/// amounts.
pub open spec fn is_buy_ix(
    ix: TradeInstruction,
    mint: Seq<u8>,
    bonding_curve: Seq<u8>,
    associated_bonding_curve: Seq<u8>,
    wallet: Seq<u8>,
    associated_token_account: Seq<u8>,
    amount_out: u64,
    max_amount_in_sol: u64,
) -> bool {
    &&& ix.program_id@ == PUMPFUN_PROGRAM_ID@
    &&& ix.accounts@.len() == 12
    &&& refs(ix.accounts@[0], PUMPFUN_GLOBAL@, false, false)
    &&& refs(ix.accounts@[1], PUMPFUN_FEE_RECIPIENT@, true, false)
    &&& refs(ix.accounts@[2], mint, false, false)
    &&& refs(ix.accounts@[3], bonding_curve, true, false)
    &&& refs(ix.accounts@[4], associated_bonding_curve, true, false)
    &&& refs(ix.accounts@[5], associated_token_account, true, false)
    &&& refs(ix.accounts@[6], wallet, true, true)
    &&& refs(ix.accounts@[7], SYSTEM_PROGRAM_ID@, false, false)
    &&& refs(ix.accounts@[8], TOKEN_PROGRAM_ID@, false, false)
    &&& refs(ix.accounts@[9], SYSTEM_RENT_PROGRAM_ID@, false, false)
    &&& refs(ix.accounts@[10], EVENT_AUTHORITY@, false, false)
    &&& refs(ix.accounts@[11], PUMPFUN_PROGRAM_ID@, false, false)
    &&& ix.data@ == trade_payload(BUY_DISCRIMINATOR@, amount_out, max_amount_in_sol)
}

/// Whether `ix` is exactly the sell instruction for these accounts and
/// amounts: the same shape as the buy, with the associated-token-account
/// program inserted and the rent sysvar omitted.
pub open spec fn is_sell_ix(
    ix: TradeInstruction,
    mint: Seq<u8>,
    bonding_curve: Seq<u8>,
    associated_bonding_curve: Seq<u8>,
    wallet: Seq<u8>,
    associated_token_account: Seq<u8>,
    amount_in: u64,
    min_amount_out_sol: u64,
) -> bool {
    &&& ix.program_id@ == PUMPFUN_PROGRAM_ID@
    &&& ix.accounts@.len() == 12
    &&& refs(ix.accounts@[0], PUMPFUN_GLOBAL@, false, false)
    &&& refs(ix.accounts@[1], PUMPFUN_FEE_RECIPIENT@, true, false)
    &&& refs(ix.accounts@[2], mint, false, false)
    &&& refs(ix.accounts@[3], bonding_curve, true, false)
    &&& refs(ix.accounts@[4], associated_bonding_curve, true, false)
    &&& refs(ix.accounts@[5], associated_token_account, true, false)
    &&& refs(ix.accounts@[6], wallet, true, true)
    &&& refs(ix.accounts@[7], SYSTEM_PROGRAM_ID@, false, false)
    &&& refs(ix.accounts@[8], ASSOC_TOKEN_ACC_PROGRAM_ID@, false, false)
    &&& refs(ix.accounts@[9], TOKEN_PROGRAM_ID@, false, false)
    &&& refs(ix.accounts@[10], EVENT_AUTHORITY@, false, false)
    &&& refs(ix.accounts@[11], PUMPFUN_PROGRAM_ID@, false, false)
    &&& ix.data@ == trade_payload(SELL_DISCRIMINATOR@, amount_in, min_amount_out_sol)
}

/// Whether `ix` is exactly the compute-budget instruction that sets the
/// compute unit price: no accounts, a one-byte operation index, the price.
pub open spec fn is_set_compute_unit_price_ix(ix: TradeInstruction, micro_lamports: u64) -> bool {
    &&& ix.program_id@ == COMPUTE_BUDGET_PROGRAM_ID@
    &&& ix.accounts@.len() == 0
    &&& ix.data@ == seq![3u8] + le_bytes64(micro_lamports)
}

/// Whether `ix` is exactly the instruction that creates the associated
/// token account of `wallet` for `mint`, funded by `wallet`.
pub open spec fn is_create_ata_ix(
    ix: TradeInstruction,
    wallet: Seq<u8>,
    associated_token_account: Seq<u8>,
    mint: Seq<u8>,
) -> bool {
    &&& ix.program_id@ == ASSOC_TOKEN_ACC_PROGRAM_ID@
    &&& ix.accounts@.len() == 6
    &&& refs(ix.accounts@[0], wallet, true, true)
    &&& refs(ix.accounts@[1], associated_token_account, true, false)
    &&& refs(ix.accounts@[2], wallet, false, false)
    &&& refs(ix.accounts@[3], mint, false, false)
    &&& refs(ix.accounts@[4], SYSTEM_PROGRAM_ID@, false, false)
    &&& refs(ix.accounts@[5], TOKEN_PROGRAM_ID@, false, false)
    &&& ix.data@ == seq![0u8]
}

/// Whether `ix` is exactly the token-program instruction that closes
/// `token_account`, sending its lamports to `wallet`, authorized by
/// `wallet` alone.
pub open spec fn is_close_account_ix(
    ix: TradeInstruction,
    token_account: Seq<u8>,
    wallet: Seq<u8>,
) -> bool {
    &&& ix.program_id@ == TOKEN_PROGRAM_ID@
    &&& ix.accounts@.len() == 3
    &&& refs(ix.accounts@[0], token_account, true, false)
    &&& refs(ix.accounts@[1], wallet, true, false)
    &&& refs(ix.accounts@[2], wallet, false, true)
    &&& ix.data@ == seq![9u8]
}

/// Appends the payload of a trade operation to `data`.
fn push_trade_payload(data: &mut Vec<u8>, tag: &[u8; 8], first: u64, second: u64)
    ensures
        final(data)@ == old(data)@ + tag@ + crate::curve::le_bytes64(first)
            + crate::curve::le_bytes64(second),
{
    let ghost data0 = data@;
    let mut k: usize = 0;
    while k < 8
        invariant
            k <= 8,
            data@ =~= data0 + tag@.subrange(0, k as int),
        decreases 8 - k,
    {
        data.push(tag[k]);
        assert(data@ =~= data0 + tag@.subrange(0, k + 1 as int));
        k += 1;
    }
    assert(data@ =~= data0 + tag@);
    crate::curve::push_le64(data, first);
    crate::curve::push_le64(data, second);
    assert(data@ =~= data0 + tag@ + crate::curve::le_bytes64(first) + crate::curve::le_bytes64(
        second,
    ));
}

/// The buy instruction: operation discriminator, the token amount bought,
/// and the most SOL paid in, against the fixed account shape.
pub fn buy_amount_out_ix(
    mint: &Address,
    bonding_curve: &Address,
    associated_bonding_curve: &Address,
    wallet: &Address,
    associated_token_account: &Address,
    amount_out: u64,
    max_amount_in_sol: u64,
) -> (ix: TradeInstruction)
    ensures
        is_buy_ix(
            ix,
            mint@,
            bonding_curve@,
            associated_bonding_curve@,
            wallet@,
            associated_token_account@,
            amount_out,
            max_amount_in_sol,
        ),
{
    let mut accounts: Vec<AccountRef> = Vec::new();
    accounts.push(AccountRef { address: Address { bytes: PUMPFUN_GLOBAL }, is_writable: false, is_signer: false });
    accounts.push(AccountRef { address: Address { bytes: PUMPFUN_FEE_RECIPIENT }, is_writable: true, is_signer: false });
    accounts.push(AccountRef { address: *mint, is_writable: false, is_signer: false });
    accounts.push(AccountRef { address: *bonding_curve, is_writable: true, is_signer: false });
    accounts.push(AccountRef { address: *associated_bonding_curve, is_writable: true, is_signer: false });
    accounts.push(AccountRef { address: *associated_token_account, is_writable: true, is_signer: false });
    accounts.push(AccountRef { address: *wallet, is_writable: true, is_signer: true });
    accounts.push(AccountRef { address: Address { bytes: SYSTEM_PROGRAM_ID }, is_writable: false, is_signer: false });
    accounts.push(AccountRef { address: Address { bytes: TOKEN_PROGRAM_ID }, is_writable: false, is_signer: false });
    accounts.push(AccountRef { address: Address { bytes: SYSTEM_RENT_PROGRAM_ID }, is_writable: false, is_signer: false });
    accounts.push(AccountRef { address: Address { bytes: EVENT_AUTHORITY }, is_writable: false, is_signer: false });
    accounts.push(AccountRef { address: Address { bytes: PUMPFUN_PROGRAM_ID }, is_writable: false, is_signer: false });
    let mut data: Vec<u8> = Vec::new();
    push_trade_payload(&mut data, &BUY_DISCRIMINATOR, amount_out, max_amount_in_sol);
    TradeInstruction { program_id: Address { bytes: PUMPFUN_PROGRAM_ID }, accounts, data }
}

/// The sell instruction: operation discriminator, the token amount sold,
/// and the least SOL accepted out, against the fixed account shape.
pub fn sell_amount_in_ix(
    mint: &Address,
    bonding_curve: &Address,
    associated_bonding_curve: &Address,
    wallet: &Address,
    associated_token_account: &Address,
    amount_in: u64,
    min_amount_out_sol: u64,
) -> (ix: TradeInstruction)
    ensures
        is_sell_ix(
            ix,
            mint@,
            bonding_curve@,
            associated_bonding_curve@,
            wallet@,
            associated_token_account@,
            amount_in,
            min_amount_out_sol,
        ),
{
    let mut accounts: Vec<AccountRef> = Vec::new();
    accounts.push(AccountRef { address: Address { bytes: PUMPFUN_GLOBAL }, is_writable: false, is_signer: false });
    accounts.push(AccountRef { address: Address { bytes: PUMPFUN_FEE_RECIPIENT }, is_writable: true, is_signer: false });
    accounts.push(AccountRef { address: *mint, is_writable: false, is_signer: false });
    accounts.push(AccountRef { address: *bonding_curve, is_writable: true, is_signer: false });
    accounts.push(AccountRef { address: *associated_bonding_curve, is_writable: true, is_signer: false });
    accounts.push(AccountRef { address: *associated_token_account, is_writable: true, is_signer: false });
    accounts.push(AccountRef { address: *wallet, is_writable: true, is_signer: true });
    accounts.push(AccountRef { address: Address { bytes: SYSTEM_PROGRAM_ID }, is_writable: false, is_signer: false });
    accounts.push(AccountRef { address: Address { bytes: ASSOC_TOKEN_ACC_PROGRAM_ID }, is_writable: false, is_signer: false });
    accounts.push(AccountRef { address: Address { bytes: TOKEN_PROGRAM_ID }, is_writable: false, is_signer: false });
    accounts.push(AccountRef { address: Address { bytes: EVENT_AUTHORITY }, is_writable: false, is_signer: false });
    accounts.push(AccountRef { address: Address { bytes: PUMPFUN_PROGRAM_ID }, is_writable: false, is_signer: false });
    let mut data: Vec<u8> = Vec::new();
    push_trade_payload(&mut data, &SELL_DISCRIMINATOR, amount_in, min_amount_out_sol);
    TradeInstruction { program_id: Address { bytes: PUMPFUN_PROGRAM_ID }, accounts, data }
}

/// The compute-budget instruction that sets the per-unit priority fee, in
/// micro-lamports.
pub fn set_compute_unit_price_ix(micro_lamports: u64) -> (ix: TradeInstruction)
    ensures
        is_set_compute_unit_price_ix(ix, micro_lamports),
{
    let accounts: Vec<AccountRef> = Vec::new();
    let mut data: Vec<u8> = Vec::new();
    data.push(3);
    crate::curve::push_le64(&mut data, micro_lamports);
    assert(data@ =~= seq![3u8] + crate::curve::le_bytes64(micro_lamports));
    TradeInstruction { program_id: Address { bytes: COMPUTE_BUDGET_PROGRAM_ID }, accounts, data }
}

/// The instruction that creates the associated token account of `wallet`
/// for `mint`, with `wallet` funding its rent.
pub fn create_associated_token_account_ix(
    wallet: &Address,
    associated_token_account: &Address,
    mint: &Address,
) -> (ix: TradeInstruction)
    ensures
        is_create_ata_ix(ix, wallet@, associated_token_account@, mint@),
{
    let mut accounts: Vec<AccountRef> = Vec::new();
    accounts.push(AccountRef { address: *wallet, is_writable: true, is_signer: true });
    accounts.push(AccountRef { address: *associated_token_account, is_writable: true, is_signer: false });
    accounts.push(AccountRef { address: *wallet, is_writable: false, is_signer: false });
    accounts.push(AccountRef { address: *mint, is_writable: false, is_signer: false });
    accounts.push(AccountRef { address: Address { bytes: SYSTEM_PROGRAM_ID }, is_writable: false, is_signer: false });
    accounts.push(AccountRef { address: Address { bytes: TOKEN_PROGRAM_ID }, is_writable: false, is_signer: false });
    let mut data: Vec<u8> = Vec::new();
    data.push(0);
    assert(data@ =~= seq![0u8]);
    TradeInstruction { program_id: Address { bytes: ASSOC_TOKEN_ACC_PROGRAM_ID }, accounts, data }
}

/// The token-program instruction that closes `token_account`, paying its
/// lamports back to `wallet`, which signs alone.
pub fn close_account_ix(token_account: &Address, wallet: &Address) -> (ix: TradeInstruction)
    ensures
        is_close_account_ix(ix, token_account@, wallet@),
{
    let mut accounts: Vec<AccountRef> = Vec::new();
    accounts.push(AccountRef { address: *token_account, is_writable: true, is_signer: false });
    accounts.push(AccountRef { address: *wallet, is_writable: true, is_signer: false });
    accounts.push(AccountRef { address: *wallet, is_writable: false, is_signer: true });
    let mut data: Vec<u8> = Vec::new();
    data.push(9);
    assert(data@ =~= seq![9u8]);
    TradeInstruction { program_id: Address { bytes: TOKEN_PROGRAM_ID }, accounts, data }
}

} // verus!
