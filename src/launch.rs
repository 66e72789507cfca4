use vstd::prelude::*;

use crate::constants::BPS;
use crate::errors::CustomErrors;
use crate::identity::Identity;
use crate::platform::Platform;
use crate::utils::{
    buy_fee, calculate_buy_fee, calculate_sell_fee, get_amount_out, get_amount_using_spot_price,
    lemma_buy_fee_bounded_and_monotone, lemma_div_at_most, lemma_div_below, lemma_mul_fits_u128,
    lemma_swap_out_below_reserve, sell_fee, spot_out, swap_out,
};

verus! {

/// Where a launch stands: trading on the curve, or launched and open for migration.
/// The only move is from `Trading` to `Launched`.
#[derive(Debug, Clone, Copy, PartialEq, Eq, Structural)]
pub enum Phase {
    Trading,
    Launched,
}

/// One token's launch: the snapshot it was created with, its two reserves, and its phase.
#[derive(Debug, Clone, Copy, PartialEq, Eq)]
pub struct TokenInfo {
    pub token: Identity,
    pub creator: Identity,
    pub total_supply: u64,
    pub virtual_sol: u64,
    pub sol_reserve: u64,
    pub token_reserve: u64,
    pub target_pool_balance: u64,
    pub phase: Phase,
}

/// The amounts a trade moves. On a buy, `sol_amount` is the SOL that enters the
/// curve after the fee and `token_amount` the tokens the buyer gets; on a sell,
/// `token_amount` is the tokens returned and `sol_amount` the SOL the seller gets
/// after the fee. `fee_amount` is the platform's share either way.
#[derive(Debug, Clone, Copy, PartialEq, Eq, Structural)]
pub struct Trade {
    pub sol_amount: u64,
    pub token_amount: u64,
    pub fee_amount: u64,
}

/// The amounts a migration hands out of a launched token's custody.
#[derive(Debug, Clone, Copy, PartialEq, Eq, Structural)]
pub struct Migration {
    pub sol_amount: u64,
    pub token_amount: u64,
}

impl TokenInfo {
    pub open spec fn launched(&self) -> bool {
        self.phase == Phase::Launched
    }

    /// What holds of every launch reached from a fresh one whose seed is within
    /// its target: the SOL reserve stays within the target, and a launched token
    /// sits exactly at a nonzero target.
    pub open spec fn wf(&self) -> bool {
        &&& self.virtual_sol <= self.target_pool_balance
        &&& self.sol_reserve <= self.target_pool_balance
        &&& self.launched() ==> self.sol_reserve == self.target_pool_balance && 0
            < self.sol_reserve
    }

    pub fn is_launched(&self) -> (r: bool)
        ensures
            r == self.launched(),
    {
        match self.phase {
            Phase::Trading => false,
            Phase::Launched => true,
        }
    }
}

/// A new launch for `token`, seeded from the platform's current defaults.
pub open spec fn fresh_launch(platform: Platform, token: Identity, creator: Identity) -> TokenInfo {
    TokenInfo {
        token,
        creator,
        total_supply: platform.total_supply,
        virtual_sol: platform.virtual_sol,
        sol_reserve: platform.virtual_sol,
        token_reserve: platform.total_supply,
        target_pool_balance: platform.target_pool_balance,
        phase: Phase::Trading,
    }
}

/// What a buy of `sol_amount` (fee included) at `fee_in_bps` returns.
pub open spec fn buy_outcome(t: TokenInfo, sol_amount: u64, fee_in_bps: u64) -> Result<
    Trade,
    CustomErrors,
> {
    if t.launched() {
        Err(CustomErrors::AlreadyLaunched)
    } else {
        let fee = buy_fee(sol_amount as int, fee_in_bps as int);
        let net = sol_amount - fee;
        if t.sol_reserve + net == 0 {
            Err(CustomErrors::DivisionByZero)
        } else {
            let out = swap_out(net, t.sol_reserve as int, t.token_reserve as int);
            if out > t.token_reserve {
                Err(CustomErrors::InsufficientTokenReserve)
            } else if t.sol_reserve + net > t.target_pool_balance {
                Err(CustomErrors::BondingCurveBreached)
            } else {
                Ok(Trade { sol_amount: net as u64, token_amount: out as u64, fee_amount: fee as u64 })
            }
        }
    }
}

/// The launch after a buy: unchanged where the buy is refused; else the net SOL
/// joins the reserve, the tokens leave it, and reaching the target launches.
pub open spec fn after_buy(t: TokenInfo, sol_amount: u64, fee_in_bps: u64) -> TokenInfo {
    match buy_outcome(t, sol_amount, fee_in_bps) {
        Ok(trade) => {
            let sol_reserve = (t.sol_reserve + trade.sol_amount) as u64;
            TokenInfo {
                sol_reserve,
                token_reserve: (t.token_reserve - trade.token_amount) as u64,
                phase: if sol_reserve == t.target_pool_balance {
                    Phase::Launched
                } else {
                    Phase::Trading
                },
                ..t
            }
        },
        Err(_) => t,
    }
}

/// What a sale of `token_amount` at `fee_in_bps` returns.
pub open spec fn sell_outcome(t: TokenInfo, token_amount: u64, fee_in_bps: u64) -> Result<
    Trade,
    CustomErrors,
> {
    if t.launched() {
        Err(CustomErrors::AlreadyLaunched)
    } else if t.token_reserve + token_amount == 0 {
        Err(CustomErrors::DivisionByZero)
    } else {
        let gross = swap_out(token_amount as int, t.token_reserve as int, t.sol_reserve as int);
        let fee = sell_fee(gross, fee_in_bps as int);
        if fee > gross {
            Err(CustomErrors::Underflow)
        } else if gross > t.sol_reserve {
            Err(CustomErrors::InsufficientSolReserve)
        } else if t.token_reserve + token_amount > u64::MAX {
            Err(CustomErrors::Overflow)
        } else {
            Ok(Trade { sol_amount: (gross - fee) as u64, token_amount, fee_amount: fee as u64 })
        }
    }
}

/// The launch after a sale: unchanged where the sale is refused; else the gross
/// SOL (what the seller gets plus the fee) leaves the reserve and the tokens join it.
pub open spec fn after_sell(t: TokenInfo, token_amount: u64, fee_in_bps: u64) -> TokenInfo {
    match sell_outcome(t, token_amount, fee_in_bps) {
        Ok(trade) => TokenInfo {
            sol_reserve: (t.sol_reserve - (trade.sol_amount + trade.fee_amount)) as u64,
            token_reserve: (t.token_reserve + token_amount) as u64,
            ..t
        },
        Err(_) => t,
    }
}

/// What a migration returns: the real SOL collected above the virtual seed, and
/// the tokens worth that much at the spot price.
pub open spec fn migrate_outcome(t: TokenInfo) -> Result<Migration, CustomErrors> {
    if !t.launched() {
        Err(CustomErrors::NotLaunched)
    } else if t.sol_reserve < t.virtual_sol {
        Err(CustomErrors::Underflow)
    } else if t.sol_reserve == 0 {
        Err(CustomErrors::DivisionByZero)
    } else {
        let sol = t.sol_reserve - t.virtual_sol;
        Ok(
            Migration {
                sol_amount: sol as u64,
                token_amount: spot_out(sol, t.sol_reserve as int, t.token_reserve as int) as u64,
            },
        )
    }
}

impl TokenInfo {
    /// Buys tokens for `sol_amount` of SOL, fee included, at `fee_in_bps`.
    /// Nothing changes when the buy is refused.
    pub fn buy(&mut self, sol_amount: u64, fee_in_bps: u64) -> (r: Result<Trade, CustomErrors>)
        ensures
            r == buy_outcome(*old(self), sol_amount, fee_in_bps),
            *final(self) == after_buy(*old(self), sol_amount, fee_in_bps),
            old(self).wf() ==> final(self).wf(),
    {
        proof {
            if self.wf() {
                lemma_apply_op_keeps_wf(*self, TradeOp::Buy { sol_amount, fee_in_bps });
            }
        }
        if self.is_launched() {
            return Err(CustomErrors::AlreadyLaunched);
        }
        proof {
            lemma_mul_fits_u128(sol_amount as int, fee_in_bps as int);
            lemma_buy_fee_bounded_and_monotone(
                sol_amount as nat,
                sol_amount as nat,
                fee_in_bps as nat,
                fee_in_bps as nat,
            );
        }
        let fee_amount = calculate_buy_fee(&(sol_amount as u128), &(fee_in_bps as u128));
        let sol_amount_after_fee = sol_amount - fee_amount;
        if self.sol_reserve as u128 + sol_amount_after_fee as u128 == 0 {
            return Err(CustomErrors::DivisionByZero);
        }
        proof {
            lemma_mul_fits_u128(sol_amount_after_fee as int, self.token_reserve as int);
            lemma_swap_out_below_reserve(
                sol_amount_after_fee as u128,
                self.sol_reserve as u128,
                self.token_reserve as u128,
            );
        }
        let token_amount = get_amount_out(
            &(sol_amount_after_fee as u128),
            &(self.sol_reserve as u128),
            &(self.token_reserve as u128),
        );
        if token_amount > self.token_reserve {
            return Err(CustomErrors::InsufficientTokenReserve);
        }
        if self.sol_reserve as u128 + sol_amount_after_fee as u128
            > self.target_pool_balance as u128 {
            return Err(CustomErrors::BondingCurveBreached);
        }
        let sol_reserve = self.sol_reserve + sol_amount_after_fee;
        self.sol_reserve = sol_reserve;
        self.token_reserve = self.token_reserve - token_amount;
        if sol_reserve == self.target_pool_balance {
            self.phase = Phase::Launched;
        }
        Ok(Trade { sol_amount: sol_amount_after_fee, token_amount, fee_amount })
    }

    /// Sells `token_amount` tokens back to the curve at `fee_in_bps`.
    /// Nothing changes when the sale is refused.
    pub fn sell(&mut self, token_amount: u64, fee_in_bps: u64) -> (r: Result<Trade, CustomErrors>)
        ensures
            r == sell_outcome(*old(self), token_amount, fee_in_bps),
            *final(self) == after_sell(*old(self), token_amount, fee_in_bps),
            old(self).wf() ==> final(self).wf(),
    {
        proof {
            if self.wf() {
                lemma_apply_op_keeps_wf(*self, TradeOp::Sell { token_amount, fee_in_bps });
            }
        }
        if self.is_launched() {
            return Err(CustomErrors::AlreadyLaunched);
        }
        if self.token_reserve as u128 + token_amount as u128 == 0 {
            return Err(CustomErrors::DivisionByZero);
        }
        proof {
            lemma_mul_fits_u128(token_amount as int, self.sol_reserve as int);
            lemma_swap_out_below_reserve(
                token_amount as u128,
                self.token_reserve as u128,
                self.sol_reserve as u128,
            );
        }
        let sol_amount = get_amount_out(
            &(token_amount as u128),
            &(self.token_reserve as u128),
            &(self.sol_reserve as u128),
        );
        let gross = sol_amount as u128;
        let rate = fee_in_bps as u128;
        proof {
            lemma_mul_fits_u128(gross as int, rate as int);
        }
        // the fee exceeds the gross amount exactly when gross * rate reaches (gross + 1) * BPS
        if gross * rate >= (gross + 1) * (BPS as u128) {
            proof {
                vstd::arithmetic::div_mod::lemma_div_is_ordered(
                    (gross + 1) * 10000,
                    gross * rate,
                    10000,
                );
                vstd::arithmetic::div_mod::lemma_div_by_multiple(gross + 1, 10000);
            }
            return Err(CustomErrors::Underflow);
        }
        proof {
            lemma_div_below(gross * rate, gross + 1, 10000);
        }
        let fee_amount = calculate_sell_fee(&gross, &rate);
        let sol_amount_after_fee = sol_amount - fee_amount;
        if sol_amount > self.sol_reserve {
            return Err(CustomErrors::InsufficientSolReserve);
        }
        if token_amount > u64::MAX - self.token_reserve {
            return Err(CustomErrors::Overflow);
        }
        self.sol_reserve = self.sol_reserve - sol_amount;
        self.token_reserve = self.token_reserve + token_amount;
        Ok(Trade { sol_amount: sol_amount_after_fee, token_amount, fee_amount })
    }

    /// The amounts to hand out once the token has launched. The launch itself
    /// is left as it is.
    pub fn migrate(&self) -> (r: Result<Migration, CustomErrors>)
        ensures
            r == migrate_outcome(*self),
    {
        if !self.is_launched() {
            return Err(CustomErrors::NotLaunched);
        }
        if self.sol_reserve < self.virtual_sol {
            return Err(CustomErrors::Underflow);
        }
        if self.sol_reserve == 0 {
            return Err(CustomErrors::DivisionByZero);
        }
        let sol_amount = self.sol_reserve - self.virtual_sol;
        proof {
            let s = sol_amount as int;
            let sr = self.sol_reserve as int;
            let tr = self.token_reserve as int;
            lemma_mul_fits_u128(s, tr);
            assert(0 <= s * tr <= tr * sr) by (nonlinear_arith)
                requires
                    0 <= s <= sr,
                    0 <= tr,
            ;
            lemma_div_at_most(s * tr, tr, sr);
        }
        let token_amount = get_amount_using_spot_price(
            &(sol_amount as u128),
            &(self.sol_reserve as u128),
            &(self.token_reserve as u128),
        );
        Ok(Migration { sol_amount, token_amount })
    }
}

/// A new launch of `token` by `creator`, with the platform's current total
/// supply, virtual SOL seed and target copied in.
pub fn create_token(platform: &Platform, token: Identity, creator: Identity) -> (r: TokenInfo)
    ensures
        r == fresh_launch(*platform, token, creator),
        platform.virtual_sol <= platform.target_pool_balance ==> r.wf(),
{
    TokenInfo {
        token,
        creator,
        total_supply: platform.total_supply,
        virtual_sol: platform.virtual_sol,
        sol_reserve: platform.virtual_sol,
        token_reserve: platform.total_supply,
        target_pool_balance: platform.target_pool_balance,
        phase: Phase::Trading,
    }
}

/// A buy at the platform's fee rate, with the fee credited to the platform.
/// Either both the launch and the platform change, or neither does: a fee that
/// would overflow the collected fees refuses the whole buy with `Overflow`.
pub fn buy_tokens(platform: &mut Platform, token_info: &mut TokenInfo, sol_amount: u64) -> (r: Result<
    Trade,
    CustomErrors,
>)
    ensures
        match buy_outcome(*old(token_info), sol_amount, old(platform).fee_in_bps) {
            Err(e) => r == Err::<Trade, CustomErrors>(e) && *final(platform) == *old(platform)
                && *final(token_info) == *old(token_info),
            Ok(trade) => if old(platform).can_accrue(trade.fee_amount) {
                r == Ok::<Trade, CustomErrors>(trade) && *final(platform) == old(
                    platform,
                ).accrued(trade.fee_amount) && *final(token_info) == after_buy(
                    *old(token_info),
                    sol_amount,
                    old(platform).fee_in_bps,
                )
            } else {
                r == Err::<Trade, CustomErrors>(CustomErrors::Overflow) && *final(platform) == *old(
                    platform,
                ) && *final(token_info) == *old(token_info)
            },
        },
{
    let mut next = *token_info;
    let trade = match next.buy(sol_amount, platform.fee_in_bps) {
        Ok(trade) => trade,
        Err(e) => return Err(e),
    };
    match platform.accrue(trade.fee_amount) {
        Ok(()) => {},
        Err(e) => return Err(e),
    }
    *token_info = next;
    Ok(trade)
}

/// A sale at the platform's fee rate, with the fee credited to the platform.
/// Either both the launch and the platform change, or neither does: a fee that
/// would overflow the collected fees refuses the whole sale with `Overflow`.
pub fn sell_tokens(platform: &mut Platform, token_info: &mut TokenInfo, token_amount: u64) -> (r:
    Result<Trade, CustomErrors>)
    ensures
        match sell_outcome(*old(token_info), token_amount, old(platform).fee_in_bps) {
            Err(e) => r == Err::<Trade, CustomErrors>(e) && *final(platform) == *old(platform)
                && *final(token_info) == *old(token_info),
            Ok(trade) => if old(platform).can_accrue(trade.fee_amount) {
                r == Ok::<Trade, CustomErrors>(trade) && *final(platform) == old(
                    platform,
                ).accrued(trade.fee_amount) && *final(token_info) == after_sell(
                    *old(token_info),
                    token_amount,
                    old(platform).fee_in_bps,
                )
            } else {
                r == Err::<Trade, CustomErrors>(CustomErrors::Overflow) && *final(platform) == *old(
                    platform,
                ) && *final(token_info) == *old(token_info)
            },
        },
{
    let mut next = *token_info;
    let trade = match next.sell(token_amount, platform.fee_in_bps) {
        Ok(trade) => trade,
        Err(e) => return Err(e),
    };
    match platform.accrue(trade.fee_amount) {
        Ok(()) => {},
        Err(e) => return Err(e),
    }
    *token_info = next;
    Ok(trade)
}

/// The migration of a launched token, which only the platform owner may run.
pub fn add_liquidity(platform: &Platform, token_info: &TokenInfo, signer: &Identity) -> (r: Result<
    Migration,
    CustomErrors,
>)
    ensures
        signer@ != platform.owner@ ==> r == Err::<Migration, CustomErrors>(CustomErrors::NotOwner),
        signer@ == platform.owner@ ==> r == migrate_outcome(*token_info),
{
    if !signer.same_as(&platform.owner) {
        return Err(CustomErrors::NotOwner);
    }
    token_info.migrate()
}

/// A trade that can be applied to a launch, with the fee rate it is made at.
#[derive(Debug, Clone, Copy, PartialEq, Eq, Structural)]
pub enum TradeOp {
    Buy { sol_amount: u64, fee_in_bps: u64 },
    Sell { token_amount: u64, fee_in_bps: u64 },
}

/// What applying `op` to `t` returns.
pub open spec fn op_outcome(t: TokenInfo, op: TradeOp) -> Result<Trade, CustomErrors> {
    match op {
        TradeOp::Buy { sol_amount, fee_in_bps } => buy_outcome(t, sol_amount, fee_in_bps),
        TradeOp::Sell { token_amount, fee_in_bps } => sell_outcome(t, token_amount, fee_in_bps),
    }
}

/// The launch after applying `op` to `t`.
pub open spec fn apply_op(t: TokenInfo, op: TradeOp) -> TokenInfo {
    match op {
        TradeOp::Buy { sol_amount, fee_in_bps } => after_buy(t, sol_amount, fee_in_bps),
        TradeOp::Sell { token_amount, fee_in_bps } => after_sell(t, token_amount, fee_in_bps),
    }
}

/// The launch after applying `ops` to `t`, first to last.
pub open spec fn run_ops(t: TokenInfo, ops: Seq<TradeOp>) -> TokenInfo
    decreases ops.len(),
{
    if ops.len() == 0 {
        t
    } else {
        apply_op(run_ops(t, ops.drop_last()), ops.last())
    }
}

/// A single buy or sale keeps a launch well formed, and leaves its target and
/// virtual seed as they were.
pub proof fn lemma_apply_op_keeps_wf(t: TokenInfo, op: TradeOp)
    requires
        t.wf(),
    ensures
        apply_op(t, op).wf(),
        apply_op(t, op).target_pool_balance == t.target_pool_balance,
        apply_op(t, op).virtual_sol == t.virtual_sol,
{
    match op {
        TradeOp::Buy { sol_amount, fee_in_bps } => {
            lemma_buy_fee_bounded_and_monotone(
                sol_amount as nat,
                sol_amount as nat,
                fee_in_bps as nat,
                fee_in_bps as nat,
            );
        },
        TradeOp::Sell { token_amount, fee_in_bps } => {
            if !t.launched() && t.token_reserve + token_amount > 0 {
                lemma_swap_out_below_reserve(
                    token_amount as u128,
                    t.token_reserve as u128,
                    t.sol_reserve as u128,
                );
                let gross = swap_out(
                    token_amount as int,
                    t.token_reserve as int,
                    t.sol_reserve as int,
                );
                assert(0 <= gross * fee_in_bps) by (nonlinear_arith)
                    requires
                        0 <= gross,
                        0 <= fee_in_bps,
                ;
                vstd::arithmetic::div_mod::lemma_div_pos_is_pos(gross * fee_in_bps, 10000);
            }
        },
    }
}

/// Any sequence of buys and sales keeps a launch well formed.
pub proof fn lemma_run_ops_keeps_wf(t: TokenInfo, ops: Seq<TradeOp>)
    requires
        t.wf(),
    ensures
        run_ops(t, ops).wf(),
        run_ops(t, ops).target_pool_balance == t.target_pool_balance,
    decreases ops.len(),
{
    if ops.len() > 0 {
        lemma_run_ops_keeps_wf(t, ops.drop_last());
        lemma_apply_op_keeps_wf(run_ops(t, ops.drop_last()), ops.last());
    }
}

/// On a fresh launch whose virtual seed is within its target, the SOL reserve
/// stays within the target after every single operation of any sequence of
/// buys and sales.
pub proof fn lemma_reserve_within_target(
    platform: Platform,
    token: Identity,
    creator: Identity,
    ops: Seq<TradeOp>,
)
    requires
        platform.virtual_sol <= platform.target_pool_balance,
    ensures
        forall|i: int|
            0 <= i <= ops.len() ==> (#[trigger] run_ops(
                fresh_launch(platform, token, creator),
                ops.take(i),
            )).sol_reserve <= platform.target_pool_balance,
{
    let t = fresh_launch(platform, token, creator);
    assert forall|i: int| 0 <= i <= ops.len() implies (#[trigger] run_ops(
        t,
        ops.take(i),
    )).sol_reserve <= platform.target_pool_balance by {
        lemma_run_ops_keeps_wf(t, ops.take(i));
    }
}

/// From a launched token no sequence of buys and sales moves anything.
proof fn lemma_run_ops_launched(t: TokenInfo, ops: Seq<TradeOp>)
    requires
        t.launched(),
    ensures
        run_ops(t, ops) == t,
    decreases ops.len(),
{
    if ops.len() > 0 {
        lemma_run_ops_launched(t, ops.drop_last());
    }
}

/// Once a token has launched, every later buy or sale is refused with
/// `AlreadyLaunched` and leaves the launch as it was, so migration stays open.
pub proof fn lemma_launched_is_final(t: TokenInfo, ops: Seq<TradeOp>)
    requires
        t.wf(),
        t.launched(),
    ensures
        forall|i: int| 0 <= i <= ops.len() ==> #[trigger] run_ops(t, ops.take(i)) == t,
        forall|i: int|
            0 <= i < ops.len() ==> op_outcome(t, #[trigger] ops[i]) == Err::<Trade, CustomErrors>(
                CustomErrors::AlreadyLaunched,
            ),
        migrate_outcome(run_ops(t, ops)) is Ok,
{
    assert forall|i: int| 0 <= i <= ops.len() implies #[trigger] run_ops(t, ops.take(i)) == t by {
        lemma_run_ops_launched(t, ops.take(i));
    }
    lemma_run_ops_launched(t, ops);
}

/// On a well-formed launch, migration is refused exactly when the token has not
/// launched, and succeeds exactly when it has.
pub proof fn lemma_migrate_iff_launched(t: TokenInfo)
    requires
        t.wf(),
    ensures
        migrate_outcome(t) is Ok <==> t.launched(),
        !t.launched() ==> migrate_outcome(t) == Err::<Migration, CustomErrors>(
            CustomErrors::NotLaunched,
        ),
{
}

} // verus!
