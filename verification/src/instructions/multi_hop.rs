//! A swap routed through up to three pools, each hop paying into the next.

use vstd::prelude::*;
use crate::constants::MAX_SWAP_HOPS;
use crate::errors::AmmError;
use crate::host::{Clock, PriceFeed, Pubkey, TokenAccount, TokenInstruction};
use crate::instructions::swap::{
    lemma_quote_needs_a_denominator, lemma_swap_step_keeps_product, reserve_in, reserve_out,
    settle_swap, swap_constraint_error, swap_direction_error, swap_requests, swap_settled,
    swap_spec, swap_step, Swap,
};
use crate::state::pool::Pool;
use crate::utils::math::{amount_out_spec, AmmMath};
use crate::utils::oracle::{swap_price_check, OracleHelper};

verus! {

/// What a routed swap works on. The second and third pool, and what goes
/// with them, are present where the route is that long.
#[derive(Clone, Copy, Debug, PartialEq, Eq, Structural)]
pub struct MultiHopSwap {
    /// Who swaps.
    pub user: Pubkey,
    pub pool_1: Pool,
    pub pool_2: Option<Pool>,
    pub pool_3: Option<Pool>,
    /// The user's account of the asset paid in.
    pub user_token_in: TokenAccount,
    /// The user's account of the asset that the last hop pays out.
    pub user_token_out: TokenAccount,
    /// The user's account that holds the output of the first hop.
    pub intermediate_token_1: Option<TokenAccount>,
    /// The user's account that holds the output of the second hop.
    pub intermediate_token_2: Option<TokenAccount>,
    pub pool_1_vault_in: TokenAccount,
    pub pool_1_vault_out: TokenAccount,
    pub pool_2_vault_in: Option<TokenAccount>,
    pub pool_2_vault_out: Option<TokenAccount>,
    pub pool_3_vault_in: Option<TokenAccount>,
    pub pool_3_vault_out: Option<TokenAccount>,
    pub oracle_1_a: PriceFeed,
    pub oracle_1_b: PriceFeed,
    pub oracle_2_a: Option<PriceFeed>,
    pub oracle_2_b: Option<PriceFeed>,
    pub oracle_3_a: Option<PriceFeed>,
    pub oracle_3_b: Option<PriceFeed>,
    pub clock: Clock,
}

/// The direction in which a pool swaps an asset: from A to B for its asset
/// A, from B to A for its asset B, none for any other asset.
pub open spec fn route_direction(pool: Pool, input_mint: Pubkey) -> Option<bool> {
    if input_mint == pool.token_a_mint {
        Some(true)
    } else if input_mint == pool.token_b_mint {
        Some(false)
    } else {
        None
    }
}

/// The custody requests of one hop: the input from its source into the
/// pool, then the output from the pool to its destination.
pub open spec fn hop_requests(
    source: TokenAccount,
    vault_in: TokenAccount,
    vault_out: TokenAccount,
    destination: TokenAccount,
    amount_in: u64,
    amount_out: u64,
) -> Seq<TokenInstruction> {
    seq![
        TokenInstruction::Transfer { from: source.key, to: vault_in.key, amount: amount_in },
        TokenInstruction::Transfer { from: vault_out.key, to: destination.key, amount: amount_out },
    ]
}

/// One hop of a route: the pool afterwards, the amount it pays out and its
/// custody requests.
///
/// The checks come in this order, and the first that fails decides the
/// error. The pool and the account that pays in must be there, the pool must
/// not be paused and must trade the asset paid in. The curve then quotes the
/// output. Both feeds must be there, and the quote must pass the price-feed
/// guard. The vaults and the account that the output goes to must be there.
/// The swap is then settled. A hop has no bound of its own on its output.
pub open spec fn hop_spec(
    pool: Option<Pool>,
    source: Option<TokenAccount>,
    vault_in: Option<TokenAccount>,
    vault_out: Option<TokenAccount>,
    destination: Option<TokenAccount>,
    oracle_a: Option<PriceFeed>,
    oracle_b: Option<PriceFeed>,
    amount_in: u64,
    now: i64,
) -> Result<(Pool, u64, Seq<TokenInstruction>), AmmError> {
    if pool is None || source is None {
        Err(AmmError::InvalidSwapRoute)
    } else if pool->Some_0.is_paused {
        Err(AmmError::PoolPaused)
    } else if route_direction(pool->Some_0, source->Some_0.mint) is None {
        Err(AmmError::InvalidSwapRoute)
    } else {
        let forward = route_direction(pool->Some_0, source->Some_0.mint)->Some_0;
        let quoted = amount_out_spec(
            amount_in,
            reserve_in(pool->Some_0, forward),
            reserve_out(pool->Some_0, forward),
            pool->Some_0.fee_numerator,
            pool->Some_0.fee_denominator,
        );
        if quoted is Err {
            Err(quoted->Err_0)
        } else if oracle_a is None || oracle_b is None {
            Err(AmmError::InvalidOracle)
        } else {
            let guard = swap_price_check(
                amount_in,
                quoted->Ok_0,
                oracle_a->Some_0,
                oracle_b->Some_0,
                pool->Some_0.oracle_max_deviation_bps,
            );
            let settled = swap_settled(pool->Some_0, amount_in, quoted->Ok_0, forward, now);
            if guard is Err {
                Err(guard->Err_0)
            } else if vault_in is None || vault_out is None || destination is None {
                Err(AmmError::InvalidSwapRoute)
            } else if settled is Err {
                Err(settled->Err_0)
            } else {
                Ok(
                    (
                        settled->Ok_0,
                        quoted->Ok_0,
                        hop_requests(
                            source->Some_0,
                            vault_in->Some_0,
                            vault_out->Some_0,
                            destination->Some_0,
                            amount_in,
                            quoted->Ok_0,
                        ),
                    ),
                )
            }
        }
    }
}

/// A hop that succeeds is a swap without a bound on its output: the pool it
/// leaves and the amount it pays are those of the swap step.
pub proof fn lemma_hop_is_swap_step(
    pool: Option<Pool>,
    source: Option<TokenAccount>,
    vault_in: Option<TokenAccount>,
    vault_out: Option<TokenAccount>,
    destination: Option<TokenAccount>,
    oracle_a: Option<PriceFeed>,
    oracle_b: Option<PriceFeed>,
    amount_in: u64,
    now: i64,
)
    requires
        hop_spec(
            pool,
            source,
            vault_in,
            vault_out,
            destination,
            oracle_a,
            oracle_b,
            amount_in,
            now,
        ) is Ok,
    ensures
        ({
            let hop = hop_spec(
                pool,
                source,
                vault_in,
                vault_out,
                destination,
                oracle_a,
                oracle_b,
                amount_in,
                now,
            )->Ok_0;
            &&& pool is Some && source is Some && oracle_a is Some && oracle_b is Some
            &&& vault_in is Some && vault_out is Some && destination is Some
            &&& !pool->Some_0.is_paused
            &&& route_direction(pool->Some_0, source->Some_0.mint) is Some
            &&& swap_step(
                pool->Some_0,
                amount_in,
                0,
                route_direction(pool->Some_0, source->Some_0.mint)->Some_0,
                oracle_a->Some_0,
                oracle_b->Some_0,
                now,
            ) == Ok::<(Pool, u64), AmmError>((hop.0, hop.1))
            &&& hop.2 == hop_requests(
                source->Some_0,
                vault_in->Some_0,
                vault_out->Some_0,
                destination->Some_0,
                amount_in,
                hop.1,
            )
        }),
{
}

/// Where the output of the first hop goes: to the first holding account on
/// a longer route, to the user's output account on a route of one hop.
pub open spec fn first_destination(ctx: MultiHopSwap, hops: u8) -> Option<TokenAccount> {
    if hops > 1 {
        ctx.intermediate_token_1
    } else {
        Some(ctx.user_token_out)
    }
}

/// Where the output of the second hop goes.
pub open spec fn second_destination(ctx: MultiHopSwap, hops: u8) -> Option<TokenAccount> {
    if hops > 2 {
        ctx.intermediate_token_2
    } else {
        Some(ctx.user_token_out)
    }
}

/// The first hop of a route.
pub open spec fn first_hop(ctx: MultiHopSwap, amount_in: u64, hops: u8) -> Result<
    (Pool, u64, Seq<TokenInstruction>),
    AmmError,
> {
    hop_spec(
        Some(ctx.pool_1),
        Some(ctx.user_token_in),
        Some(ctx.pool_1_vault_in),
        Some(ctx.pool_1_vault_out),
        first_destination(ctx, hops),
        Some(ctx.oracle_1_a),
        Some(ctx.oracle_1_b),
        amount_in,
        ctx.clock.unix_timestamp,
    )
}

/// The second hop of a route, fed with the output of the first.
pub open spec fn second_hop(ctx: MultiHopSwap, amount_in: u64, hops: u8) -> Result<
    (Pool, u64, Seq<TokenInstruction>),
    AmmError,
> {
    hop_spec(
        ctx.pool_2,
        ctx.intermediate_token_1,
        ctx.pool_2_vault_in,
        ctx.pool_2_vault_out,
        second_destination(ctx, hops),
        ctx.oracle_2_a,
        ctx.oracle_2_b,
        amount_in,
        ctx.clock.unix_timestamp,
    )
}

/// The third hop of a route, fed with the output of the second.
pub open spec fn third_hop(ctx: MultiHopSwap, amount_in: u64) -> Result<
    (Pool, u64, Seq<TokenInstruction>),
    AmmError,
> {
    hop_spec(
        ctx.pool_3,
        ctx.intermediate_token_2,
        ctx.pool_3_vault_in,
        ctx.pool_3_vault_out,
        Some(ctx.user_token_out),
        ctx.oracle_3_a,
        ctx.oracle_3_b,
        amount_in,
        ctx.clock.unix_timestamp,
    )
}

/// The account checks that precede a routed swap: every account of the user
/// that is there belongs to the user.
pub open spec fn multi_hop_constraint_error(ctx: MultiHopSwap) -> Option<AmmError> {
    if ctx.user_token_in.owner != ctx.user || ctx.user_token_out.owner != ctx.user || (
    ctx.intermediate_token_1 is Some && ctx.intermediate_token_1->Some_0.owner != ctx.user) || (
    ctx.intermediate_token_2 is Some && ctx.intermediate_token_2->Some_0.owner != ctx.user) {
        Some(AmmError::InvalidAuthority)
    } else {
        None
    }
}

/// What stops a route before its first hop, if anything does.
pub open spec fn multi_hop_entry_error(ctx: MultiHopSwap, amount_in: u64, hops: u8) -> Option<
    AmmError,
> {
    if multi_hop_constraint_error(ctx) is Some {
        multi_hop_constraint_error(ctx)
    } else if hops < 1 || hops > MAX_SWAP_HOPS {
        Some(AmmError::MaxHopsExceeded)
    } else if amount_in == 0 {
        Some(AmmError::ZeroAmount)
    } else if ctx.pool_1.is_paused {
        Some(AmmError::PoolPaused)
    } else if route_direction(ctx.pool_1, ctx.user_token_in.mint) is None
        || ctx.pool_1_vault_in.mint != ctx.user_token_in.mint {
        Some(AmmError::InvalidSwapRoute)
    } else {
        None
    }
}

/// What a routed swap does: the accounts afterwards, the amount that the
/// last hop pays out and the custody requests of all hops in order, or the
/// error with which the route is rejected.
///
/// Each hop takes the output of the hop before it as its input. Only the
/// output of the last hop is held against `minimum_amount_out`.
pub open spec fn multi_hop_spec(
    ctx: MultiHopSwap,
    amount_in: u64,
    minimum_amount_out: u64,
    hops: u8,
) -> Result<(MultiHopSwap, u64, Seq<TokenInstruction>), AmmError> {
    let first = first_hop(ctx, amount_in, hops);
    if multi_hop_entry_error(ctx, amount_in, hops) is Some {
        Err(multi_hop_entry_error(ctx, amount_in, hops)->Some_0)
    } else if first is Err {
        Err(first->Err_0)
    } else if hops == 1 {
        if first->Ok_0.1 < minimum_amount_out {
            Err(AmmError::SlippageExceeded)
        } else {
            Ok((MultiHopSwap { pool_1: first->Ok_0.0, ..ctx }, first->Ok_0.1, first->Ok_0.2))
        }
    } else {
        let second = second_hop(ctx, first->Ok_0.1, hops);
        if second is Err {
            Err(second->Err_0)
        } else if hops == 2 {
            if second->Ok_0.1 < minimum_amount_out {
                Err(AmmError::SlippageExceeded)
            } else {
                Ok(
                    (
                        MultiHopSwap {
                            pool_1: first->Ok_0.0,
                            pool_2: Some(second->Ok_0.0),
                            ..ctx
                        },
                        second->Ok_0.1,
                        first->Ok_0.2 + second->Ok_0.2,
                    ),
                )
            }
        } else {
            let third = third_hop(ctx, second->Ok_0.1);
            if third is Err {
                Err(third->Err_0)
            } else if third->Ok_0.1 < minimum_amount_out {
                Err(AmmError::SlippageExceeded)
            } else {
                Ok(
                    (
                        MultiHopSwap {
                            pool_1: first->Ok_0.0,
                            pool_2: Some(second->Ok_0.0),
                            pool_3: Some(third->Ok_0.0),
                            ..ctx
                        },
                        third->Ok_0.1,
                        first->Ok_0.2 + second->Ok_0.2 + third->Ok_0.2,
                    ),
                )
            }
        }
    }
}

/// Carries out one hop and appends its custody requests to `requests`. On
/// an error `requests` is unchanged.
fn execute_hop(
    pool: Option<Pool>,
    source: Option<TokenAccount>,
    vault_in: Option<TokenAccount>,
    vault_out: Option<TokenAccount>,
    destination: Option<TokenAccount>,
    oracle_a: Option<PriceFeed>,
    oracle_b: Option<PriceFeed>,
    amount_in: u64,
    now: i64,
    requests: &mut Vec<TokenInstruction>,
) -> (r: Result<(Pool, u64), AmmError>)
    ensures
        r is Ok ==> hop_spec(
            pool,
            source,
            vault_in,
            vault_out,
            destination,
            oracle_a,
            oracle_b,
            amount_in,
            now,
        ) is Ok && ({
            let hop = hop_spec(
                pool,
                source,
                vault_in,
                vault_out,
                destination,
                oracle_a,
                oracle_b,
                amount_in,
                now,
            )->Ok_0;
            &&& r->Ok_0.0 == hop.0
            &&& r->Ok_0.1 == hop.1
            &&& final(requests)@ == old(requests)@ + hop.2
        }),
        r is Err ==> hop_spec(
            pool,
            source,
            vault_in,
            vault_out,
            destination,
            oracle_a,
            oracle_b,
            amount_in,
            now,
        ) == Err::<(Pool, u64, Seq<TokenInstruction>), AmmError>(r->Err_0) && final(requests)@
            == old(requests)@,
{
    let (mut pool, source) = match (pool, source) {
        (Some(p), Some(s)) => (p, s),
        _ => {
            return Err(AmmError::InvalidSwapRoute);
        },
    };
    if pool.is_paused {
        return Err(AmmError::PoolPaused);
    }
    let is_a_to_b: bool = if source.mint == pool.token_a_mint {
        true
    } else if source.mint == pool.token_b_mint {
        false
    } else {
        return Err(AmmError::InvalidSwapRoute);
    };
    let (reserve_in, reserve_out) = if is_a_to_b {
        (pool.reserve_a, pool.reserve_b)
    } else {
        (pool.reserve_b, pool.reserve_a)
    };
    let amount_out: u64 = match AmmMath::get_amount_out(
        amount_in,
        reserve_in,
        reserve_out,
        pool.fee_numerator,
        pool.fee_denominator,
    ) {
        Ok(v) => v,
        Err(e) => {
            return Err(e);
        },
    };
    let (oracle_a, oracle_b) = match (oracle_a, oracle_b) {
        (Some(a), Some(b)) => (a, b),
        _ => {
            return Err(AmmError::InvalidOracle);
        },
    };
    match OracleHelper::validate_swap_price(
        amount_in,
        amount_out,
        &oracle_a,
        &oracle_b,
        pool.oracle_max_age,
        pool.oracle_max_deviation_bps,
        is_a_to_b,
    ) {
        Ok(()) => {},
        Err(e) => {
            return Err(e);
        },
    }
    let (vault_in, vault_out, destination) = match (vault_in, vault_out, destination) {
        (Some(i), Some(o), Some(d)) => (i, o, d),
        _ => {
            return Err(AmmError::InvalidSwapRoute);
        },
    };
    proof {
        lemma_quote_needs_a_denominator(
            amount_in,
            reserve_in,
            reserve_out,
            pool.fee_numerator,
            pool.fee_denominator,
        );
    }
    match settle_swap(&mut pool, amount_in, amount_out, is_a_to_b, now) {
        Ok(()) => {},
        Err(e) => {
            return Err(e);
        },
    }
    requests.push(
        TokenInstruction::Transfer { from: source.key, to: vault_in.key, amount: amount_in },
    );
    requests.push(
        TokenInstruction::Transfer { from: vault_out.key, to: destination.key, amount: amount_out },
    );
    assert(requests@ =~= old(requests)@ + hop_requests(
        source,
        vault_in,
        vault_out,
        destination,
        amount_in,
        amount_out,
    ));
    Ok((pool, amount_out))
}

/// Swaps `amount_in` through `hops` pools in order and hands back the amount
/// that the last hop pays out, which must reach `minimum_amount_out`, with
/// the custody requests of all hops.
///
/// A route over a paused pool is rejected. A route that is rejected changes
/// no pool.
pub fn handler(ctx: &mut MultiHopSwap, amount_in: u64, minimum_amount_out: u64, hops: u8) -> (r:
    Result<(u64, Vec<TokenInstruction>), AmmError>)
    ensures
        r is Ok ==> multi_hop_spec(*old(ctx), amount_in, minimum_amount_out, hops) == Ok::<
            (MultiHopSwap, u64, Seq<TokenInstruction>),
            AmmError,
        >((*final(ctx), r->Ok_0.0, r->Ok_0.1@)),
        r is Err ==> multi_hop_spec(*old(ctx), amount_in, minimum_amount_out, hops) == Err::<
            (MultiHopSwap, u64, Seq<TokenInstruction>),
            AmmError,
        >(r->Err_0) && *final(ctx) == *old(ctx),
        r is Ok ==> r->Ok_0.0 >= minimum_amount_out,
        old(ctx).pool_1.is_paused ==> r is Err,
        old(ctx).pool_1.is_paused && multi_hop_constraint_error(*old(ctx)) is None && 1 <= hops
            <= MAX_SWAP_HOPS && amount_in > 0 ==> r == Err::<
            (u64, Vec<TokenInstruction>),
            AmmError,
        >(AmmError::PoolPaused),
        hops >= 2 && old(ctx).pool_2 is Some && old(ctx).pool_2->Some_0.is_paused ==> r is Err,
        hops >= 3 && old(ctx).pool_3 is Some && old(ctx).pool_3->Some_0.is_paused ==> r is Err,
{
    if ctx.user_token_in.owner != ctx.user || ctx.user_token_out.owner != ctx.user {
        return Err(AmmError::InvalidAuthority);
    }
    match ctx.intermediate_token_1 {
        Some(account) => {
            if account.owner != ctx.user {
                return Err(AmmError::InvalidAuthority);
            }
        },
        None => {},
    }
    match ctx.intermediate_token_2 {
        Some(account) => {
            if account.owner != ctx.user {
                return Err(AmmError::InvalidAuthority);
            }
        },
        None => {},
    }
    if hops < 1 || hops > MAX_SWAP_HOPS {
        return Err(AmmError::MaxHopsExceeded);
    }
    if amount_in == 0 {
        return Err(AmmError::ZeroAmount);
    }
    if ctx.pool_1.is_paused {
        return Err(AmmError::PoolPaused);
    }
    if ctx.user_token_in.mint != ctx.pool_1.token_a_mint && ctx.user_token_in.mint
        != ctx.pool_1.token_b_mint {
        return Err(AmmError::InvalidSwapRoute);
    }
    if ctx.pool_1_vault_in.mint != ctx.user_token_in.mint {
        return Err(AmmError::InvalidSwapRoute);
    }
    let now: i64 = ctx.clock.unix_timestamp;
    let mut requests: Vec<TokenInstruction> = Vec::new();
    let destination_1: Option<TokenAccount> = if hops > 1 {
        ctx.intermediate_token_1
    } else {
        Some(ctx.user_token_out)
    };
    let (pool_1, amount_out_1) = match execute_hop(
        Some(ctx.pool_1),
        Some(ctx.user_token_in),
        Some(ctx.pool_1_vault_in),
        Some(ctx.pool_1_vault_out),
        destination_1,
        Some(ctx.oracle_1_a),
        Some(ctx.oracle_1_b),
        amount_in,
        now,
        &mut requests,
    ) {
        Ok(v) => v,
        Err(e) => {
            return Err(e);
        },
    };
    assert(requests@ =~= first_hop(*ctx, amount_in, hops)->Ok_0.2);
    if hops == 1 {
        if amount_out_1 < minimum_amount_out {
            return Err(AmmError::SlippageExceeded);
        }
        ctx.pool_1 = pool_1;
        return Ok((amount_out_1, requests));
    }
    let destination_2: Option<TokenAccount> = if hops > 2 {
        ctx.intermediate_token_2
    } else {
        Some(ctx.user_token_out)
    };
    let (pool_2, amount_out_2) = match execute_hop(
        ctx.pool_2,
        ctx.intermediate_token_1,
        ctx.pool_2_vault_in,
        ctx.pool_2_vault_out,
        destination_2,
        ctx.oracle_2_a,
        ctx.oracle_2_b,
        amount_out_1,
        now,
        &mut requests,
    ) {
        Ok(v) => v,
        Err(e) => {
            return Err(e);
        },
    };
    if hops == 2 {
        if amount_out_2 < minimum_amount_out {
            return Err(AmmError::SlippageExceeded);
        }
        ctx.pool_1 = pool_1;
        ctx.pool_2 = Some(pool_2);
        return Ok((amount_out_2, requests));
    }
    let (pool_3, amount_out_3) = match execute_hop(
        ctx.pool_3,
        ctx.intermediate_token_2,
        ctx.pool_3_vault_in,
        ctx.pool_3_vault_out,
        Some(ctx.user_token_out),
        ctx.oracle_3_a,
        ctx.oracle_3_b,
        amount_out_2,
        now,
        &mut requests,
    ) {
        Ok(v) => v,
        Err(e) => {
            return Err(e);
        },
    };
    if amount_out_3 < minimum_amount_out {
        return Err(AmmError::SlippageExceeded);
    }
    ctx.pool_1 = pool_1;
    ctx.pool_2 = Some(pool_2);
    ctx.pool_3 = Some(pool_3);
    Ok((amount_out_3, requests))
}

/// The single swap that the first hop of a route of two amounts to: out of
/// the user's input account, into the first holding account.
pub open spec fn first_hop_as_swap(ctx: MultiHopSwap) -> Swap {
    Swap {
        pool: ctx.pool_1,
        user: ctx.user,
        user_token_in: ctx.user_token_in,
        user_token_out: ctx.intermediate_token_1->Some_0,
        pool_token_in: ctx.pool_1_vault_in,
        pool_token_out: ctx.pool_1_vault_out,
        oracle_a: ctx.oracle_1_a,
        oracle_b: ctx.oracle_1_b,
        clock: ctx.clock,
    }
}

/// The single swap that the second hop of a route of two amounts to: out of
/// the first holding account, into the user's output account.
pub open spec fn second_hop_as_swap(ctx: MultiHopSwap) -> Swap {
    Swap {
        pool: ctx.pool_2->Some_0,
        user: ctx.user,
        user_token_in: ctx.intermediate_token_1->Some_0,
        user_token_out: ctx.user_token_out,
        pool_token_in: ctx.pool_2_vault_in->Some_0,
        pool_token_out: ctx.pool_2_vault_out->Some_0,
        oracle_a: ctx.oracle_2_a->Some_0,
        oracle_b: ctx.oracle_2_b->Some_0,
        clock: ctx.clock,
    }
}

/// A route through two pools is two swaps in a row: the first pool swaps
/// the input, the second pool swaps what the first paid out, neither with a
/// bound of its own on the output. The pools end as those two swaps leave
/// them and the route pays out what the second swap pays out.
///
/// Where the accounts of each hop also pass the checks that a single swap
/// makes of its accounts, the two single swaps are accepted and give the
/// same pools and, one after the other, the same custody requests.
pub proof fn lemma_two_hops_are_two_swaps(
    ctx: MultiHopSwap,
    amount_in: u64,
    minimum_amount_out: u64,
)
    requires
        multi_hop_spec(ctx, amount_in, minimum_amount_out, 2) is Ok,
    ensures
        ({
            let (after, output, requests) = multi_hop_spec(
                ctx,
                amount_in,
                minimum_amount_out,
                2,
            )->Ok_0;
            let now = ctx.clock.unix_timestamp;
            let forward_1 = route_direction(ctx.pool_1, ctx.user_token_in.mint)->Some_0;
            let forward_2 = route_direction(
                ctx.pool_2->Some_0,
                ctx.intermediate_token_1->Some_0.mint,
            )->Some_0;
            let first = swap_step(
                ctx.pool_1,
                amount_in,
                0,
                forward_1,
                ctx.oracle_1_a,
                ctx.oracle_1_b,
                now,
            );
            let second = swap_step(
                ctx.pool_2->Some_0,
                first->Ok_0.1,
                0,
                forward_2,
                ctx.oracle_2_a->Some_0,
                ctx.oracle_2_b->Some_0,
                now,
            );
            let swap_1 = first_hop_as_swap(ctx);
            let swap_2 = second_hop_as_swap(ctx);
            &&& first is Ok
            &&& second is Ok
            &&& after.pool_1 == first->Ok_0.0
            &&& after.pool_2 == Some(second->Ok_0.0)
            &&& output == second->Ok_0.1
            &&& output >= minimum_amount_out
            &&& swap_constraint_error(swap_1) is None && swap_direction_error(swap_1, forward_1)
                is None ==> swap_spec(swap_1, amount_in, 0, forward_1) == Ok::<
                (Swap, Seq<TokenInstruction>),
                AmmError,
            >(
                (
                    Swap { pool: after.pool_1, ..swap_1 },
                    swap_requests(swap_1, amount_in, first->Ok_0.1),
                ),
            )
            &&& swap_constraint_error(swap_2) is None && swap_direction_error(swap_2, forward_2)
                is None ==> swap_spec(swap_2, first->Ok_0.1, 0, forward_2) == Ok::<
                (Swap, Seq<TokenInstruction>),
                AmmError,
            >(
                (
                    Swap { pool: after.pool_2->Some_0, ..swap_2 },
                    swap_requests(swap_2, first->Ok_0.1, output),
                ),
            )
            &&& requests == swap_requests(swap_1, amount_in, first->Ok_0.1) + swap_requests(
                swap_2,
                first->Ok_0.1,
                output,
            )
        }),
{
    let first = first_hop(ctx, amount_in, 2);
    let second = second_hop(ctx, first->Ok_0.1, 2);
    assert(first is Ok && second is Ok);
    let now = ctx.clock.unix_timestamp;
    let forward_1 = route_direction(ctx.pool_1, ctx.user_token_in.mint)->Some_0;
    let forward_2 = route_direction(
        ctx.pool_2->Some_0,
        ctx.intermediate_token_1->Some_0.mint,
    )->Some_0;
    lemma_swap_step_keeps_product(
        ctx.pool_1,
        amount_in,
        0,
        forward_1,
        ctx.oracle_1_a,
        ctx.oracle_1_b,
        now,
    );
    lemma_swap_step_keeps_product(
        ctx.pool_2->Some_0,
        first->Ok_0.1,
        0,
        forward_2,
        ctx.oracle_2_a->Some_0,
        ctx.oracle_2_b->Some_0,
        now,
    );
}

/// A route never shrinks the product of the reserves of a pool it crosses.
pub proof fn lemma_route_keeps_products(
    ctx: MultiHopSwap,
    amount_in: u64,
    minimum_amount_out: u64,
    hops: u8,
)
    requires
        multi_hop_spec(ctx, amount_in, minimum_amount_out, hops) is Ok,
    ensures
        ({
            let after = multi_hop_spec(ctx, amount_in, minimum_amount_out, hops)->Ok_0.0;
            &&& after.pool_1.reserve_a * after.pool_1.reserve_b >= ctx.pool_1.reserve_a
                * ctx.pool_1.reserve_b
            &&& hops >= 2 ==> after.pool_2->Some_0.reserve_a * after.pool_2->Some_0.reserve_b
                >= ctx.pool_2->Some_0.reserve_a * ctx.pool_2->Some_0.reserve_b
            &&& hops >= 3 ==> after.pool_3->Some_0.reserve_a * after.pool_3->Some_0.reserve_b
                >= ctx.pool_3->Some_0.reserve_a * ctx.pool_3->Some_0.reserve_b
        }),
{
    let now = ctx.clock.unix_timestamp;
    let first = first_hop(ctx, amount_in, hops);
    lemma_swap_step_keeps_product(
        ctx.pool_1,
        amount_in,
        0,
        route_direction(ctx.pool_1, ctx.user_token_in.mint)->Some_0,
        ctx.oracle_1_a,
        ctx.oracle_1_b,
        now,
    );
    if hops >= 2 {
        let second = second_hop(ctx, first->Ok_0.1, hops);
        lemma_swap_step_keeps_product(
            ctx.pool_2->Some_0,
            first->Ok_0.1,
            0,
            route_direction(ctx.pool_2->Some_0, ctx.intermediate_token_1->Some_0.mint)->Some_0,
            ctx.oracle_2_a->Some_0,
            ctx.oracle_2_b->Some_0,
            now,
        );
        if hops >= 3 {
            lemma_swap_step_keeps_product(
                ctx.pool_3->Some_0,
                second->Ok_0.1,
                0,
                route_direction(ctx.pool_3->Some_0, ctx.intermediate_token_2->Some_0.mint)->Some_0,
                ctx.oracle_3_a->Some_0,
                ctx.oracle_3_b->Some_0,
                now,
            );
        }
    }
}

} // verus!
