//! Theorems about the pricing curve.

use vstd::prelude::*;
use crate::utils::arith::{lemma_div_bounds, lemma_div_at_most};
use crate::utils::math::{
    amount_in_spec, amount_out_spec, lemma_amount_out_below_reserve, net_input,
};

verus! {

/// Before rounding, `amount_in` buys strictly more than `amount_out`.
pub open spec fn buys_more_than(
    amount_in: int,
    amount_out: int,
    reserve_in: u64,
    reserve_out: u64,
    fee_numerator: u64,
    fee_denominator: u64,
) -> bool {
    let net = amount_in * (fee_denominator - fee_numerator);
    net * reserve_out > amount_out * (reserve_in * fee_denominator + net)
}

/// A swap never shrinks the product of the reserves: with the input added to
/// one reserve and the output taken from the other, the new product is at
/// least the old one.
pub proof fn lemma_swap_keeps_product(
    amount_in: u64,
    reserve_in: u64,
    reserve_out: u64,
    fee_numerator: u64,
    fee_denominator: u64,
)
    requires
        amount_out_spec(amount_in, reserve_in, reserve_out, fee_numerator, fee_denominator) is Ok,
    ensures
        ({
            let amount_out = amount_out_spec(
                amount_in,
                reserve_in,
                reserve_out,
                fee_numerator,
                fee_denominator,
            )->Ok_0;
            &&& amount_out < reserve_out
            &&& (reserve_in + amount_in) * (reserve_out - amount_out) >= reserve_in * reserve_out
        }),
{
    let a = amount_in as int;
    let rin = reserve_in as int;
    let rout = reserve_out as int;
    let d = fee_denominator as int;
    let keep = fee_denominator - fee_numerator;
    let net = net_input(amount_in, fee_numerator, fee_denominator);
    assert(net == a * keep);
    let den = rin * d + net;
    assert(0 <= net <= a * d) by (nonlinear_arith)
        requires
            net == a * keep,
            0 <= keep <= d,
            0 <= a,
    ;
    assert(rin * d >= 0) by (nonlinear_arith)
        requires
            rin >= 0,
            d >= 0,
    ;
    assert(net * rout >= 0) by (nonlinear_arith)
        requires
            net >= 0,
            rout >= 0,
    ;
    lemma_div_bounds(net * rout, den);
    let q = net * rout / den;
    assert(d > 0) by (nonlinear_arith)
        requires
            den == rin * d + net,
            den > 0,
            0 <= net <= a * d,
            d >= 0,
    ;
    assert(q < rout) by (nonlinear_arith)
        requires
            q * den <= net * rout,
            den == rin * d + net,
            rin > 0,
            d > 0,
            net >= 0,
            rout > 0,
            q >= 0,
    ;
    assert(q == amount_out_spec(amount_in, reserve_in, reserve_out, fee_numerator, fee_denominator)->Ok_0);
    assert(d * (q * rin + a * q) <= d * (a * rout)) by (nonlinear_arith)
        requires
            q * den <= net * rout,
            den == rin * d + net,
            0 <= net <= a * d,
            0 <= q < rout,
            d > 0,
            rin > 0,
            a >= 0,
    {
        assert(q * (rin * d) <= net * (rout - q));
        assert(net * (rout - q) <= (a * d) * (rout - q));
    }
    assert(q * rin + a * q <= a * rout) by (nonlinear_arith)
        requires
            d * (q * rin + a * q) <= d * (a * rout),
            d > 0,
    ;
    assert((rin + a) * (rout - q) >= rin * rout) by (nonlinear_arith)
        requires
            q * rin + a * q <= a * rout,
    ;
}

/// Quoting the input for what a swap bought never asks for more than one unit
/// above what was paid, and it asks for at least what was paid exactly when
/// one unit less would not, before rounding, have bought more than the swap
/// gave. Rounding the output down can therefore make the quote smaller than
/// the payment, never larger by more than one.
pub proof fn lemma_round_trip(
    amount_in: u64,
    reserve_in: u64,
    reserve_out: u64,
    fee_numerator: u64,
    fee_denominator: u64,
)
    requires
        amount_out_spec(amount_in, reserve_in, reserve_out, fee_numerator, fee_denominator) is Ok,
        amount_in_spec(
            amount_out_spec(amount_in, reserve_in, reserve_out, fee_numerator, fee_denominator)->Ok_0,
            reserve_in,
            reserve_out,
            fee_numerator,
            fee_denominator,
        ) is Ok,
    ensures
        ({
            let amount_out = amount_out_spec(
                amount_in,
                reserve_in,
                reserve_out,
                fee_numerator,
                fee_denominator,
            )->Ok_0;
            let quoted = amount_in_spec(
                amount_out,
                reserve_in,
                reserve_out,
                fee_numerator,
                fee_denominator,
            )->Ok_0;
            &&& quoted <= amount_in + 1
            &&& quoted >= amount_in <==> !buys_more_than(
                amount_in - 1,
                amount_out as int,
                reserve_in,
                reserve_out,
                fee_numerator,
                fee_denominator,
            )
        }),
{
    let a = amount_in as int;
    let rin = reserve_in as int;
    let rout = reserve_out as int;
    let d = fee_denominator as int;
    let keep = fee_denominator - fee_numerator;
    let net = a * keep;
    let den = rin * d + net;
    assert(net >= 0) by (nonlinear_arith)
        requires
            net == a * keep,
            keep >= 0,
            a >= 0,
    ;
    assert(net * rout >= 0) by (nonlinear_arith)
        requires
            net >= 0,
            rout >= 0,
    ;
    assert(rin * d >= 0) by (nonlinear_arith)
        requires
            rin >= 0,
            d >= 0,
    ;
    lemma_div_bounds(net * rout, den);
    lemma_amount_out_below_reserve(net, rin * d, rout);
    let out = net * rout / den;
    assert(out == amount_out_spec(amount_in, reserve_in, reserve_out, fee_numerator, fee_denominator)->Ok_0);
    assert(0 < out < rout);
    let num = rin * out * d;
    let left = rout - out;
    let back_den = left * keep;
    assert(back_den > 0);
    assert(num >= 0) by (nonlinear_arith)
        requires
            num == rin * out * d,
            rin >= 0,
            out >= 0,
            d >= 0,
    ;
    lemma_div_bounds(num, back_den);
    let floor = num / back_den;
    // The payment covers the exact cost of the rounded output.
    assert(num <= a * back_den) by (nonlinear_arith)
        requires
            out * den <= net * rout,
            den == rin * d + net,
            net == a * keep,
            num == rin * out * d,
            back_den == (rout - out) * keep,
    ;
    lemma_div_at_most(num, back_den, a);
    assert(floor <= a);
    // The quote reaches the payment exactly when the floor reaches one less.
    let less = a - 1;
    assert((num >= less * back_den) <==> !((less * keep) * rout > out * (rin * d + less * keep)))
        by (nonlinear_arith)
        requires
            num == rin * out * d,
            back_den == (rout - out) * keep,
    ;
    if num >= less * back_den {
        assert(floor >= less) by (nonlinear_arith)
            requires
                num < (floor + 1) * back_den,
                num >= less * back_den,
                back_den > 0,
        ;
    } else {
        assert(floor < less) by (nonlinear_arith)
            requires
                floor * back_den <= num,
                num < less * back_den,
                back_den > 0,
        ;
    }
}

/// The quote is never too low: paying what `get_amount_in` quotes for an
/// output buys at least that output.
pub proof fn lemma_quote_suffices(
    amount_out: u64,
    reserve_in: u64,
    reserve_out: u64,
    fee_numerator: u64,
    fee_denominator: u64,
)
    requires
        amount_in_spec(amount_out, reserve_in, reserve_out, fee_numerator, fee_denominator) is Ok,
        amount_out_spec(
            amount_in_spec(amount_out, reserve_in, reserve_out, fee_numerator, fee_denominator)->Ok_0,
            reserve_in,
            reserve_out,
            fee_numerator,
            fee_denominator,
        ) is Ok,
    ensures
        amount_out_spec(
            amount_in_spec(amount_out, reserve_in, reserve_out, fee_numerator, fee_denominator)->Ok_0,
            reserve_in,
            reserve_out,
            fee_numerator,
            fee_denominator,
        )->Ok_0 >= amount_out,
{
    let out = amount_out as int;
    let rin = reserve_in as int;
    let rout = reserve_out as int;
    let d = fee_denominator as int;
    let keep = fee_denominator - fee_numerator;
    let num = rin * out * d;
    let back_den = (rout - out) * keep;
    assert(num >= 0) by (nonlinear_arith)
        requires
            num == rin * out * d,
            rin >= 0,
            out >= 0,
            d >= 0,
    ;
    lemma_div_bounds(num, back_den);
    let quoted = num / back_den + 1;
    assert(quoted == amount_in_spec(
        amount_out,
        reserve_in,
        reserve_out,
        fee_numerator,
        fee_denominator,
    )->Ok_0);
    let net = quoted * keep;
    let den = rin * d + net;
    assert(net >= 0) by (nonlinear_arith)
        requires
            net == quoted * keep,
            quoted >= 0,
            keep >= 0,
    ;
    assert(rin * d >= 0) by (nonlinear_arith)
        requires
            rin >= 0,
            d >= 0,
    ;
    assert(net * rout >= 0) by (nonlinear_arith)
        requires
            net >= 0,
            rout >= 0,
    ;
    lemma_div_bounds(net * rout, den);
    lemma_amount_out_below_reserve(net, rin * d, rout);
    let bought = net * rout / den;
    assert(bought == amount_out_spec(
        quoted as u64,
        reserve_in,
        reserve_out,
        fee_numerator,
        fee_denominator,
    )->Ok_0);
    // The quote times the divisor exceeds the dividend, so the quote buys
    // more than `amount_out` before rounding.
    assert(net * rout >= out * den) by (nonlinear_arith)
        requires
            num < quoted * back_den,
            num == rin * out * d,
            back_den == (rout - out) * keep,
            net == quoted * keep,
            den == rin * d + net,
    ;
    assert(bought >= out) by (nonlinear_arith)
        requires
            net * rout >= out * den,
            net * rout < (bought + 1) * den,
            den > 0,
    ;
}

/// A round trip is never profitable for a payment that wastes nothing:
/// where one unit less would have bought less, the quote for what the swap
/// bought is at least what was paid.
pub proof fn lemma_round_trip_of_least_payment(
    amount_in: u64,
    reserve_in: u64,
    reserve_out: u64,
    fee_numerator: u64,
    fee_denominator: u64,
)
    requires
        amount_out_spec(amount_in, reserve_in, reserve_out, fee_numerator, fee_denominator) is Ok,
        amount_in_spec(
            amount_out_spec(amount_in, reserve_in, reserve_out, fee_numerator, fee_denominator)->Ok_0,
            reserve_in,
            reserve_out,
            fee_numerator,
            fee_denominator,
        ) is Ok,
        amount_in == 1 || ({
            let less = amount_out_spec(
                (amount_in - 1) as u64,
                reserve_in,
                reserve_out,
                fee_numerator,
                fee_denominator,
            );
            less is Ok && less->Ok_0 < amount_out_spec(
                amount_in,
                reserve_in,
                reserve_out,
                fee_numerator,
                fee_denominator,
            )->Ok_0
        }),
    ensures
        amount_in_spec(
            amount_out_spec(amount_in, reserve_in, reserve_out, fee_numerator, fee_denominator)->Ok_0,
            reserve_in,
            reserve_out,
            fee_numerator,
            fee_denominator,
        )->Ok_0 >= amount_in,
{
    lemma_round_trip(amount_in, reserve_in, reserve_out, fee_numerator, fee_denominator);
    let out = amount_out_spec(
        amount_in,
        reserve_in,
        reserve_out,
        fee_numerator,
        fee_denominator,
    )->Ok_0 as int;
    let rin = reserve_in as int;
    let rout = reserve_out as int;
    let d = fee_denominator as int;
    let keep = fee_denominator - fee_numerator;
    let less = amount_in - 1;
    let net = less * keep;
    let den = rin * d + net;
    assert(net >= 0) by (nonlinear_arith)
        requires
            net == less * keep,
            less >= 0,
            keep >= 0,
    ;
    assert(rin * d >= 0) by (nonlinear_arith)
        requires
            rin >= 0,
            d >= 0,
    ;
    if amount_in == 1 {
        assert(net == 0);
        assert(net * rout == 0);
        assert(out * den >= 0) by (nonlinear_arith)
            requires
                out >= 0,
                den >= 0,
        ;
    } else {
        assert(net * rout >= 0) by (nonlinear_arith)
            requires
                net >= 0,
                rout >= 0,
        ;
        lemma_div_bounds(net * rout, den);
        lemma_amount_out_below_reserve(net, rin * d, rout);
        let bought = net * rout / den;
        assert(bought < out);
        assert(net * rout <= out * den) by (nonlinear_arith)
            requires
                net * rout < (bought + 1) * den,
                bought + 1 <= out,
                den > 0,
        ;
    }
}

} // verus!
