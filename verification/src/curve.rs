//! The on-chain curve account: its fixed binary layout, a verified decoder
//! and encoder, the spot price derived from its reserves, and the
//! deterministic derivation of the per-mint curve accounts.

use vstd::prelude::*;

use crate::Address;
use crate::PumpFunError;
use crate::constants::PUMPFUN_PROGRAM_ID;

verus! {

/// Leading tag of every curve account: eight fixed bytes ahead of the fields.
pub const CURVE_TAG: [u8; 8] = [0x17, 0xb7, 0xf8, 0x37, 0x60, 0xd8, 0xac, 0x60];

/// Total length of an encoded curve account: tag, five 64-bit fields, one
/// boolean byte.
pub const CURVE_ACCOUNT_LEN: usize = 49;

/// A read-only snapshot of the curve account, fetched fresh on every quote.
#[derive(Clone, Copy, Debug, PartialEq, Eq, Structural)]
pub struct CurveState {
    pub virtual_token_reserves: u64,
    pub virtual_sol_reserves: u64,
    pub real_token_reserves: u64,
    pub real_sol_reserves: u64,
    pub token_total_supply: u64,
    pub complete: bool,
}

/// An exact spot price as a ratio of integers: `numerator / denominator`
/// SOL per whole token. Zero (`numerator == 0`) marks a curve that is no
/// longer quotable here.
#[derive(Clone, Copy, Debug, PartialEq, Eq, Structural)]
pub struct Price {
    pub numerator: u64,
    pub denominator: u128,
}

/// The unsigned 64-bit value held little-endian in `b[i .. i + 8]`.
pub open spec fn le64(b: Seq<u8>, i: int) -> u64 {
    (b[i] as u64)
    | ((b[i + 1] as u64) << 8)
    | ((b[i + 2] as u64) << 16)
    | ((b[i + 3] as u64) << 24)
    | ((b[i + 4] as u64) << 32)
    | ((b[i + 5] as u64) << 40)
    | ((b[i + 6] as u64) << 48)
    | ((b[i + 7] as u64) << 56)
}

/// The eight little-endian bytes of `x`.
pub open spec fn le_bytes64(x: u64) -> Seq<u8> {
    seq![
        (x & 0xff) as u8,
        ((x >> 8) & 0xff) as u8,
        ((x >> 16) & 0xff) as u8,
        ((x >> 24) & 0xff) as u8,
        ((x >> 32) & 0xff) as u8,
        ((x >> 40) & 0xff) as u8,
        ((x >> 48) & 0xff) as u8,
        ((x >> 56) & 0xff) as u8,
    ]
}

/// Reassembling the little-endian bytes of `x` gives back `x`.
pub proof fn lemma_le64_of_le_bytes64(x: u64)
    ensures
        le64(le_bytes64(x), 0) == x,
{
    assert(((x & 0xff) as u8 as u64)
        | ((((x >> 8) & 0xff) as u8 as u64) << 8)
        | ((((x >> 16) & 0xff) as u8 as u64) << 16)
        | ((((x >> 24) & 0xff) as u8 as u64) << 24)
        | ((((x >> 32) & 0xff) as u8 as u64) << 32)
        | ((((x >> 40) & 0xff) as u8 as u64) << 40)
        | ((((x >> 48) & 0xff) as u8 as u64) << 48)
        | ((((x >> 56) & 0xff) as u8 as u64) << 56) == x) by (bit_vector);
}

/// Whether `b` is a well-formed curve account encoding: exact length, the
/// fixed tag, and a boolean byte that is zero or one.
pub open spec fn valid_curve_encoding(b: Seq<u8>) -> bool {
    &&& b.len() == 49
    &&& b.subrange(0, 8) == CURVE_TAG@
    &&& (b[48] == 0u8 || b[48] == 1u8)
}

/// The state held by a well-formed encoding.
pub open spec fn decoded_curve_state(b: Seq<u8>) -> CurveState {
    CurveState {
        virtual_token_reserves: le64(b, 8),
        virtual_sol_reserves: le64(b, 16),
        real_token_reserves: le64(b, 24),
        real_sol_reserves: le64(b, 32),
        token_total_supply: le64(b, 40),
        complete: b[48] == 1u8,
    }
}

/// The encoding of a state: tag, the five fields little-endian, the boolean.
pub open spec fn encoded_curve_state(s: CurveState) -> Seq<u8> {
    CURVE_TAG@
        + le_bytes64(s.virtual_token_reserves)
        + le_bytes64(s.virtual_sol_reserves)
        + le_bytes64(s.real_token_reserves)
        + le_bytes64(s.real_sol_reserves)
        + le_bytes64(s.token_total_supply)
        + seq![if s.complete { 1u8 } else { 0u8 }]
}

/// Law: encoding a state yields a well-formed buffer, and decoding it
/// reproduces the state field for field.
pub proof fn lemma_curve_state_round_trip(s: CurveState)
    ensures
        valid_curve_encoding(encoded_curve_state(s)),
        decoded_curve_state(encoded_curve_state(s)) == s,
{
    let b = encoded_curve_state(s);
    assert(b.subrange(0, 8) =~= CURVE_TAG@);
    lemma_le64_of_le_bytes64(s.virtual_token_reserves);
    lemma_le64_of_le_bytes64(s.virtual_sol_reserves);
    lemma_le64_of_le_bytes64(s.real_token_reserves);
    lemma_le64_of_le_bytes64(s.real_sol_reserves);
    lemma_le64_of_le_bytes64(s.token_total_supply);
    assert(le64(b, 8) == le64(le_bytes64(s.virtual_token_reserves), 0));
    assert(le64(b, 16) == le64(le_bytes64(s.virtual_sol_reserves), 0));
    assert(le64(b, 24) == le64(le_bytes64(s.real_token_reserves), 0));
    assert(le64(b, 32) == le64(le_bytes64(s.real_sol_reserves), 0));
    assert(le64(b, 40) == le64(le_bytes64(s.token_total_supply), 0));
}

/// Reads the 64-bit little-endian value at `b[i .. i + 8]`.
fn read_le64(b: &Vec<u8>, i: usize) -> (x: u64)
    requires
        i + 8 <= b@.len(),
        i + 8 <= usize::MAX,
    ensures
        x == le64(b@, i as int),
{
    (b[i] as u64)
    | ((b[i + 1] as u64) << 8)
    | ((b[i + 2] as u64) << 16)
    | ((b[i + 3] as u64) << 24)
    | ((b[i + 4] as u64) << 32)
    | ((b[i + 5] as u64) << 40)
    | ((b[i + 6] as u64) << 48)
    | ((b[i + 7] as u64) << 56)
}

/// Appends the eight little-endian bytes of `x`.
pub(crate) fn push_le64(out: &mut Vec<u8>, x: u64)
    ensures
        final(out)@ == old(out)@ + le_bytes64(x),
{
    assert((x & 0xff) < 256
        && ((x >> 8) & 0xff) < 256
        && ((x >> 16) & 0xff) < 256
        && ((x >> 24) & 0xff) < 256
        && ((x >> 32) & 0xff) < 256
        && ((x >> 40) & 0xff) < 256
        && ((x >> 48) & 0xff) < 256
        && ((x >> 56) & 0xff) < 256) by (bit_vector);
    out.push((x & 0xff) as u8);
    out.push(((x >> 8) & 0xff) as u8);
    out.push(((x >> 16) & 0xff) as u8);
    out.push(((x >> 24) & 0xff) as u8);
    out.push(((x >> 32) & 0xff) as u8);
    out.push(((x >> 40) & 0xff) as u8);
    out.push(((x >> 48) & 0xff) as u8);
    out.push(((x >> 56) & 0xff) as u8);
    assert(out@ =~= old(out)@ + le_bytes64(x));
}

impl CurveState {
    /// Decodes a raw curve account buffer, rejecting any malformed layout.
    pub fn decode(data: &Vec<u8>) -> (r: Result<CurveState, PumpFunError>)
        ensures
            valid_curve_encoding(data@) ==> r == Ok::<CurveState, PumpFunError>(
                decoded_curve_state(data@),
            ),
            !valid_curve_encoding(data@) ==> r == Err::<CurveState, PumpFunError>(
                PumpFunError::DecodeError,
            ),
    {
        if data.len() != CURVE_ACCOUNT_LEN {
            return Err(PumpFunError::DecodeError);
        }
        let mut k: usize = 0;
        while k < 8
            invariant
                k <= 8,
                data@.len() == 49,
                forall|j: int| 0 <= j < k ==> data@[j] == CURVE_TAG@[j],
            decreases 8 - k,
        {
            if data[k] != CURVE_TAG[k] {
                assert(data@.subrange(0, 8)[k as int] != CURVE_TAG@[k as int]);
                return Err(PumpFunError::DecodeError);
            }
            k += 1;
        }
        assert(data@.subrange(0, 8) =~= CURVE_TAG@);
        let flag = data[48];
        if flag > 1 {
            return Err(PumpFunError::DecodeError);
        }
        Ok(CurveState {
            virtual_token_reserves: read_le64(data, 8),
            virtual_sol_reserves: read_le64(data, 16),
            real_token_reserves: read_le64(data, 24),
            real_sol_reserves: read_le64(data, 32),
            token_total_supply: read_le64(data, 40),
            complete: flag == 1,
        })
    }

    /// Encodes the state into the account's fixed binary layout.
    pub fn encode(&self) -> (r: Vec<u8>)
        ensures
            r@ == encoded_curve_state(*self),
            valid_curve_encoding(r@),
    {
        let mut out: Vec<u8> = Vec::new();
        let mut k: usize = 0;
        while k < 8
            invariant
                k <= 8,
                out@ =~= CURVE_TAG@.subrange(0, k as int),
            decreases 8 - k,
        {
            out.push(CURVE_TAG[k]);
            assert(out@ =~= CURVE_TAG@.subrange(0, k + 1 as int));
            k += 1;
        }
        assert(out@ =~= CURVE_TAG@);
        push_le64(&mut out, self.virtual_token_reserves);
        push_le64(&mut out, self.virtual_sol_reserves);
        push_le64(&mut out, self.real_token_reserves);
        push_le64(&mut out, self.real_sol_reserves);
        push_le64(&mut out, self.token_total_supply);
        out.push(if self.complete { 1 } else { 0 });
        assert(out@ =~= encoded_curve_state(*self));
        proof {
            lemma_curve_state_round_trip(*self);
        }
        out
    }

    /// The exact spot price of the state, as `spec_price` states it.
    pub open spec fn spec_price(self) -> Price {
        if self.complete || self.virtual_token_reserves == 0 || self.virtual_sol_reserves == 0 {
            Price { numerator: 0, denominator: 1 }
        } else {
            Price {
                numerator: self.virtual_sol_reserves,
                denominator: (1000 * (self.virtual_token_reserves as int)) as u128,
            }
        }
    }

    /// Spot price in SOL per whole token: the reserve ratio scaled by the two
    /// assets' decimal precisions (9 against 6), or exactly zero when the
    /// curve is complete or a reserve is empty.
    pub fn price(&self) -> (r: Price)
        ensures
            r == self.spec_price(),
            (self.complete || self.virtual_token_reserves == 0 || self.virtual_sol_reserves == 0)
                <==> r.numerator == 0,
            r.numerator != 0 ==> r.numerator == self.virtual_sol_reserves && r.denominator == 1000
                * (self.virtual_token_reserves as int),
    {
        if self.complete || self.virtual_token_reserves == 0 || self.virtual_sol_reserves == 0 {
            Price { numerator: 0, denominator: 1 }
        } else {
            Price {
                numerator: self.virtual_sol_reserves,
                denominator: 1000u128 * (self.virtual_token_reserves as u128),
            }
        }
    }
}

/// Interprets a fetched account: no data at the address means the curve does
/// not exist there; otherwise the bytes must decode exactly.
pub fn get_bonding_curve_state(account_data: Option<Vec<u8>>) -> (r: Result<
    CurveState,
    PumpFunError,
>)
    ensures
        account_data is None ==> r == Err::<CurveState, PumpFunError>(
            PumpFunError::AccountNotFoundError,
        ),
        account_data matches Some(d) ==> (if valid_curve_encoding(d@) {
            r == Ok::<CurveState, PumpFunError>(decoded_curve_state(d@))
        } else {
            r == Err::<CurveState, PumpFunError>(PumpFunError::DecodeError)
        }),
{
    match account_data {
        None => Err(PumpFunError::AccountNotFoundError),
        Some(data) => CurveState::decode(&data),
    }
}

/// The address the chain derives for the curve account of a mint: a function
/// of the mint alone, under the fixed trading program.
pub uninterp spec fn bonding_curve_pda(mint: Seq<u8>) -> Seq<u8>;

/// The canonical token-holding address of an owner for a mint under the fixed
/// token program: a function of the two addresses alone.
pub uninterp spec fn associated_token_address(owner: Seq<u8>, mint: Seq<u8>) -> Seq<u8>;

/// The pair a mint derives to: its curve account, and that account's own
/// token-holding account.
pub open spec fn derived_pair(mint: Seq<u8>) -> (Seq<u8>, Seq<u8>) {
    (bonding_curve_pda(mint), associated_token_address(bonding_curve_pda(mint), mint))
}

/// Law: derivation is pure — the derived pair is a function of the mint and
/// of nothing else, so repeated derivations of one mint agree.
pub proof fn lemma_derivation_pure(m1: Seq<u8>, m2: Seq<u8>)
    requires
        m1 == m2,
    ensures
        derived_pair(m1) == derived_pair(m2),
{
}

/// Relies on solana_sdk::pubkey::Pubkey::find_program_address with the seeds
/// "bonding-curve" ++ mint under the trading program id: the derived address
/// depends on the seeds and the program id alone. A viable bump seed exists
/// for every realistic input; on the statistically improbable miss the
/// all-zero address is returned rather than panicking.
#[verifier::external_body]
fn find_bonding_curve_address(mint: &Address) -> (r: Address)
    ensures
        r@ == bonding_curve_pda(mint@),
{
    let mint_pk = solana_sdk::pubkey::Pubkey::new_from_array(mint.bytes);
    let program = solana_sdk::pubkey::Pubkey::new_from_array(PUMPFUN_PROGRAM_ID);
    match solana_sdk::pubkey::Pubkey::try_find_program_address(
        &["bonding-curve".as_bytes(), mint_pk.as_ref()],
        &program,
    ) {
        Some((pda, _bump)) => Address { bytes: pda.to_bytes() },
        None => Address { bytes: [0u8; 32] },
    }
}

/// Relies on spl_associated_token_account::get_associated_token_address: the
/// canonical holding address is derived from the owner and mint alone, under
/// the fixed associated-token-account and token programs.
#[verifier::external_body]
pub(crate) fn ata_address(owner: &Address, mint: &Address) -> (r: Address)
    ensures
        r@ == associated_token_address(owner@, mint@),
{
    let owner_pk = solana_sdk::pubkey::Pubkey::new_from_array(owner.bytes);
    let mint_pk = solana_sdk::pubkey::Pubkey::new_from_array(mint.bytes);
    let ata = spl_associated_token_account::get_associated_token_address(&owner_pk, &mint_pk);
    Address { bytes: ata.to_bytes() }
}

/// Derives the curve account and its token-holding account for a mint.
/// Deterministic, total, side-effect-free: the result is pinned to
/// `derived_pair(mint)`, so repeated calls yield identical output.
pub fn derive_bonding_curve_accounts(mint: &Address) -> (r: (Address, Address))
    ensures
        (r.0@, r.1@) == derived_pair(mint@),
        r.0@ == bonding_curve_pda(mint@),
        r.1@ == associated_token_address(bonding_curve_pda(mint@), mint@),
{
    let bonding_curve = find_bonding_curve_address(mint);
    let associated_bonding_curve = ata_address(&bonding_curve, mint);
    (bonding_curve, associated_bonding_curve)
}

} // verus!
