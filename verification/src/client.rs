//! The trading client: a per-mint derived-address cache and the assembly of
//! buy and sell instruction lists. Network transport stays with the caller,
//! who fetches the curve account's bytes and submits the signed transaction;
//! every decision in between is made, and pinned down, here.

use vstd::prelude::*;

use crate::Address;
use crate::PumpFunError;
use crate::address_eq;
use crate::curve::associated_token_address;
use crate::curve::ata_address;
use crate::curve::bonding_curve_pda;
use crate::curve::decoded_curve_state;
use crate::curve::derive_bonding_curve_accounts;
use crate::curve::derived_pair;
use crate::curve::get_bonding_curve_state;
use crate::curve::valid_curve_encoding;
use crate::curve::Price;
use crate::instructions::buy_amount_out_ix;
use crate::instructions::close_account_ix;
use crate::instructions::create_associated_token_account_ix;
use crate::instructions::is_buy_ix;
use crate::instructions::is_close_account_ix;
use crate::instructions::is_create_ata_ix;
use crate::instructions::is_set_compute_unit_price_ix;
use crate::instructions::is_sell_ix;
use crate::instructions::sell_amount_in_ix;
use crate::instructions::set_compute_unit_price_ix;
use crate::instructions::TradeInstruction;
use crate::quote::buy_quote;
use crate::quote::sell_quote;
use crate::quote::spec_buy_amount_out;
use crate::quote::spec_max_sol_in;
use crate::quote::spec_min_sol_out;
use crate::quote::spec_sell_amount_out;

verus! {

/// Why a trade request fails before any instruction is produced: rejected
/// input, a missing or malformed curve account, or a curve that is no longer
/// quotable (complete, or a reserve drained to zero). `None` means the quote
/// may proceed.
pub open spec fn trade_failure(
    amount_in: u64,
    slippage_bps: u64,
    curve_account_data: Option<Vec<u8>>,
) -> Option<PumpFunError> {
    if amount_in == 0 || slippage_bps > 10000 {
        Some(PumpFunError::InvalidInputError)
    } else {
        match curve_account_data {
            Option::None => Some(PumpFunError::AccountNotFoundError),
            Option::Some(d) => if !valid_curve_encoding(d@) {
                Some(PumpFunError::DecodeError)
            } else {
                let s = decoded_curve_state(d@);
                if s.complete || s.virtual_token_reserves == 0 || s.virtual_sol_reserves == 0 {
                    Some(PumpFunError::CurveCompleteError)
                } else {
                    None
                }
            },
        }
    }
}

/// The trading client: the wallet it signs for, and the cache of derived
/// account pairs, owned by this one instance for its lifetime.
pub struct PumpFunClient {
    wallet_pubkey: Address,
    derived_account_cache: Vec<(Address, (Address, Address))>,
}

impl PumpFunClient {
    /// Every cached pair is exactly the derivation of its mint, and no mint
    /// appears twice.
    pub closed spec fn wf(&self) -> bool {
        &&& forall|i: int|
            0 <= i < self.derived_account_cache@.len() ==> (
            #[trigger] self.derived_account_cache@[i].1.0@,
            self.derived_account_cache@[i].1.1@,
            ) == derived_pair(self.derived_account_cache@[i].0@)
        &&& forall|i: int, j: int|
            0 <= i < j < self.derived_account_cache@.len()
                ==> #[trigger] self.derived_account_cache@[i].0@
                != #[trigger] self.derived_account_cache@[j].0@
    }

    /// The wallet this client signs for.
    pub closed spec fn spec_wallet(&self) -> Seq<u8> {
        self.wallet_pubkey@
    }

    /// How many mints the cache holds.
    pub closed spec fn spec_cache_len(&self) -> nat {
        self.derived_account_cache@.len()
    }

    /// Whether the cache already holds this mint.
    pub closed spec fn spec_is_cached(&self, mint: Seq<u8>) -> bool {
        exists|i: int|
            0 <= i < self.derived_account_cache@.len()
                && #[trigger] self.derived_account_cache@[i].0@ == mint
    }

    /// A fresh client for a wallet, with an empty cache.
    pub fn new(wallet_pubkey: Address) -> (c: PumpFunClient)
        ensures
            c.wf(),
            c.spec_wallet() == wallet_pubkey@,
            c.spec_cache_len() == 0,
    {
        PumpFunClient { wallet_pubkey, derived_account_cache: Vec::new() }
    }

    /// The wallet address this client signs for.
    pub fn wallet_pubkey(&self) -> (a: Address)
        ensures
            a@ == self.spec_wallet(),
    {
        self.wallet_pubkey
    }

    /// Cache-or-compute lookup of a mint's derived pair. A hit returns the
    /// cached value without mutation; a miss derives, inserts, and returns —
    /// either way the result is the mint's one derivation.
    pub fn get_derived_accounts(&mut self, mint: &Address) -> (r: (Address, Address))
        requires
            old(self).wf(),
        ensures
            final(self).wf(),
            final(self).spec_wallet() == old(self).spec_wallet(),
            (r.0@, r.1@) == derived_pair(mint@),
            final(self).spec_is_cached(mint@),
            old(self).spec_is_cached(mint@) ==> *final(self) == *old(self),
            !old(self).spec_is_cached(mint@) ==> final(self).spec_cache_len() == old(
                self,
            ).spec_cache_len() + 1,
    {
        let n = self.derived_account_cache.len();
        let mut i: usize = 0;
        while i < n
            invariant
                self.wf(),
                *self == *old(self),
                n == self.derived_account_cache@.len(),
                i <= n,
                forall|j: int| 0 <= j < i ==> self.derived_account_cache@[j].0@ != mint@,
            decreases n - i,
        {
            let hit = address_eq(&self.derived_account_cache[i].0, mint);
            if hit {
                let accounts = self.derived_account_cache[i].1;
                return accounts;
            }
            i += 1;
        }
        assert(!old(self).spec_is_cached(mint@));
        let accounts = derive_bonding_curve_accounts(mint);
        self.derived_account_cache.push((*mint, accounts));
        assert(self.derived_account_cache@[n as int].0@ == mint@);
        accounts
    }

    /// The spot price read from a fetched curve account. Fails when the
    /// account is absent or malformed, or when the curve has completed;
    /// otherwise the exact reserve-ratio price, which is zero only if a
    /// reserve is empty.
    pub fn get_price(&self, curve_account_data: Option<Vec<u8>>) -> (r: Result<
        Price,
        PumpFunError,
    >)
        ensures
            curve_account_data is None ==> r == Err::<Price, PumpFunError>(
                PumpFunError::AccountNotFoundError,
            ),
            curve_account_data matches Some(d) ==> (if !valid_curve_encoding(d@) {
                r == Err::<Price, PumpFunError>(PumpFunError::DecodeError)
            } else if decoded_curve_state(d@).complete {
                r == Err::<Price, PumpFunError>(PumpFunError::CurveCompleteError)
            } else {
                r == Ok::<Price, PumpFunError>(decoded_curve_state(d@).spec_price())
            }),
    {
        let state = match get_bonding_curve_state(curve_account_data) {
            Ok(s) => s,
            Err(e) => { return Err(e); },
        };
        if state.complete {
            return Err(PumpFunError::CurveCompleteError);
        }
        Ok(state.price())
    }

    /// Assembles the ordered instruction list of a buy: an optional
    /// priority-fee instruction, an optional creation of the buyer's holding
    /// account, then the buy itself, quoted at the fetched reserves with the
    /// slippage-widened SOL bound. Fails exactly as `trade_failure` says, and
    /// then produces no instruction.
    pub fn create_buy_transaction(
        &mut self,
        mint: &Address,
        curve_account_data: Option<Vec<u8>>,
        amount_in_sol: u64,
        slippage_bps: u64,
        create_token_ata: bool,
        priority_fee: u64,
    ) -> (r: Result<Vec<TradeInstruction>, PumpFunError>)
        requires
            old(self).wf(),
        ensures
            final(self).wf(),
            final(self).spec_wallet() == old(self).spec_wallet(),
            r is Err <==> trade_failure(amount_in_sol, slippage_bps, curve_account_data) is Some,
            r matches Err(e) ==> Some(e) == trade_failure(
                amount_in_sol,
                slippage_bps,
                curve_account_data,
            ),
            r matches Ok(ixs) ==> curve_account_data matches Some(d) && {
                let s = decoded_curve_state(d@);
                let bc = bonding_curve_pda(mint@);
                let abc = associated_token_address(bc, mint@);
                let ata = associated_token_address(old(self).spec_wallet(), mint@);
                let amount_out = spec_buy_amount_out(
                    amount_in_sol,
                    s.virtual_sol_reserves,
                    s.virtual_token_reserves,
                );
                let max_sol_in = spec_max_sol_in(amount_in_sol, slippage_bps);
                let pre = (if priority_fee > 0 { 1int } else { 0int }) + (if create_token_ata {
                    1int
                } else {
                    0int
                });
                &&& ixs@.len() == pre + 1
                &&& priority_fee > 0 ==> is_set_compute_unit_price_ix(ixs@[0], priority_fee)
                &&& create_token_ata ==> is_create_ata_ix(
                    ixs@[pre - 1],
                    old(self).spec_wallet(),
                    ata,
                    mint@,
                )
                &&& is_buy_ix(
                    ixs@[pre],
                    mint@,
                    bc,
                    abc,
                    old(self).spec_wallet(),
                    ata,
                    amount_out,
                    max_sol_in,
                )
            },
    {
        if amount_in_sol == 0 || slippage_bps > 10000 {
            return Err(PumpFunError::InvalidInputError);
        }
        let (bonding_curve, associated_bonding_curve) = self.get_derived_accounts(mint);
        let state = match get_bonding_curve_state(curve_account_data) {
            Ok(s) => s,
            Err(e) => { return Err(e); },
        };
        if state.complete || state.virtual_token_reserves == 0 || state.virtual_sol_reserves == 0 {
            return Err(PumpFunError::CurveCompleteError);
        }
        let q = buy_quote(
            amount_in_sol,
            state.virtual_sol_reserves,
            state.virtual_token_reserves,
            slippage_bps,
        );
        let mut ixs: Vec<TradeInstruction> = Vec::new();
        if priority_fee > 0 {
            ixs.push(set_compute_unit_price_ix(priority_fee));
        }
        let token_ata = ata_address(&self.wallet_pubkey, mint);
        if create_token_ata {
            ixs.push(create_associated_token_account_ix(&self.wallet_pubkey, &token_ata, mint));
        }
        ixs.push(
            buy_amount_out_ix(
                mint,
                &bonding_curve,
                &associated_bonding_curve,
                &self.wallet_pubkey,
                &token_ata,
                q.amount_out,
                q.bound,
            ),
        );
        Ok(ixs)
    }

    /// Assembles the ordered instruction list of a sell: an optional
    /// priority-fee instruction, the sell quoted at the fetched reserves with
    /// the slippage-narrowed SOL bound, then optionally the closing of the
    /// seller's holding account — after the sell, relying on atomic
    /// transaction ordering. Fails exactly as `trade_failure` says, and then
    /// produces no instruction.
    pub fn create_sell_transaction(
        &mut self,
        mint: &Address,
        curve_account_data: Option<Vec<u8>>,
        amount_in_token: u64,
        slippage_bps: u64,
        close_token_ata: bool,
        priority_fee: u64,
    ) -> (r: Result<Vec<TradeInstruction>, PumpFunError>)
        requires
            old(self).wf(),
        ensures
            final(self).wf(),
            final(self).spec_wallet() == old(self).spec_wallet(),
            r is Err <==> trade_failure(amount_in_token, slippage_bps, curve_account_data) is Some,
            r matches Err(e) ==> Some(e) == trade_failure(
                amount_in_token,
                slippage_bps,
                curve_account_data,
            ),
            r matches Ok(ixs) ==> curve_account_data matches Some(d) && {
                let s = decoded_curve_state(d@);
                let bc = bonding_curve_pda(mint@);
                let abc = associated_token_address(bc, mint@);
                let ata = associated_token_address(old(self).spec_wallet(), mint@);
                let amount_out = spec_sell_amount_out(
                    amount_in_token,
                    s.virtual_sol_reserves,
                    s.virtual_token_reserves,
                );
                let min_sol_out = spec_min_sol_out(amount_out, slippage_bps);
                let pre = if priority_fee > 0 { 1int } else { 0int };
                &&& ixs@.len() == pre + 1 + (if close_token_ata { 1int } else { 0int })
                &&& priority_fee > 0 ==> is_set_compute_unit_price_ix(ixs@[0], priority_fee)
                &&& is_sell_ix(
                    ixs@[pre],
                    mint@,
                    bc,
                    abc,
                    old(self).spec_wallet(),
                    ata,
                    amount_in_token,
                    min_sol_out,
                )
                &&& close_token_ata ==> is_close_account_ix(
                    ixs@[pre + 1],
                    ata,
                    old(self).spec_wallet(),
                )
            },
    {
        if amount_in_token == 0 || slippage_bps > 10000 {
            return Err(PumpFunError::InvalidInputError);
        }
        let (bonding_curve, associated_bonding_curve) = self.get_derived_accounts(mint);
        let state = match get_bonding_curve_state(curve_account_data) {
            Ok(s) => s,
            Err(e) => { return Err(e); },
        };
        if state.complete || state.virtual_token_reserves == 0 || state.virtual_sol_reserves == 0 {
            return Err(PumpFunError::CurveCompleteError);
        }
        let q = sell_quote(
            amount_in_token,
            state.virtual_sol_reserves,
            state.virtual_token_reserves,
            slippage_bps,
        );
        let mut ixs: Vec<TradeInstruction> = Vec::new();
        if priority_fee > 0 {
            ixs.push(set_compute_unit_price_ix(priority_fee));
        }
        let token_ata = ata_address(&self.wallet_pubkey, mint);
        ixs.push(
            sell_amount_in_ix(
                mint,
                &bonding_curve,
                &associated_bonding_curve,
                &self.wallet_pubkey,
                &token_ata,
                amount_in_token,
                q.bound,
            ),
        );
        if close_token_ata {
            ixs.push(close_account_ix(&token_ata, &self.wallet_pubkey));
        }
        Ok(ixs)
    }
}

} // verus!
