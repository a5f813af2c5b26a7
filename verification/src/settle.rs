use vstd::prelude::*;

use vstd::arithmetic::div_mod::{
    lemma_div_is_ordered, lemma_div_multiples_vanish, lemma_div_pos_is_pos,
    lemma_fundamental_div_mod, lemma_hoist_over_denominator,
};
use vstd::arithmetic::mul::{
    lemma_mul_inequality, lemma_mul_is_distributive_add, lemma_mul_nonnegative,
};

use crate::account::{rate_sum, Creator, GlobalPool};
use crate::constants::{MAX_GROSS, PERMYRIAD, SHARE_DENOMINATOR};
use crate::error::MarketplaceError;

verus! {

/// One transfer the caller must execute to settle a sale: `amount` to the
/// party `to`. A settlement is a list of these, executed as one atomic unit.
#[derive(Clone, Copy, Debug, PartialEq, Eq, Structural)]
pub struct Payout {
    pub to: u64,
    pub amount: u64,
}

/// The royalty pool of a sale: `floor(gross * royalty_bps / 10000)`.
pub open spec fn royalty_total(gross: u64, royalty_bps: u64) -> int {
    gross * royalty_bps / (PERMYRIAD as int)
}

/// The platform fee pool of a sale: `floor(gross * fee_rate / 10000)`.
pub open spec fn platform_fee(gross: u64, fee_rate: u64) -> int {
    gross * fee_rate / (PERMYRIAD as int)
}

/// What the seller keeps: the gross minus both pools.
pub open spec fn seller_net(gross: u64, royalty_bps: u64, fee_rate: u64) -> int {
    gross - royalty_total(gross, royalty_bps) - platform_fee(gross, fee_rate)
}

/// The treasury payouts, in table order: treasury `i` gets
/// `floor(fee_amount * rate_i / 10000)`.
pub open spec fn treasury_payouts(fee_amount: int, addresses: Seq<u64>, rates: Seq<u64>) -> Seq<
    Payout,
>
    decreases addresses.len(),
{
    if addresses.len() == 0 {
        Seq::empty()
    } else {
        treasury_payouts(fee_amount, addresses.drop_last(), rates.drop_last()).push(
            Payout {
                to: addresses.last(),
                amount: (fee_amount * rates.last() / (PERMYRIAD as int)) as u64,
            },
        )
    }
}

/// The royalty payouts, in metadata order: every creator with a nonzero
/// share gets `floor(royalty * share / 100)`; zero-share creators get no
/// entry.
pub open spec fn creator_payouts(royalty: int, creators: Seq<Creator>) -> Seq<Payout>
    decreases creators.len(),
{
    if creators.len() == 0 {
        Seq::empty()
    } else {
        let rest = creator_payouts(royalty, creators.drop_last());
        let c = creators.last();
        if c.share != 0 {
            rest.push(
                Payout { to: c.address, amount: (royalty * c.share / (SHARE_DENOMINATOR as int)) as u64 },
            )
        } else {
            rest
        }
    }
}

/// The full settlement of one sale, in its fixed order: the seller's net
/// first, then the treasuries, then the creators.
pub open spec fn expected_payouts(
    seller: u64,
    gross: u64,
    royalty_bps: u64,
    fee_rate: u64,
    addresses: Seq<u64>,
    rates: Seq<u64>,
    creators: Seq<Creator>,
) -> Seq<Payout> {
    seq![Payout { to: seller, amount: seller_net(gross, royalty_bps, fee_rate) as u64 }]
        + treasury_payouts(platform_fee(gross, fee_rate), addresses, rates) + creator_payouts(
        royalty_total(gross, royalty_bps),
        creators,
    )
}

/// The total amount a list of payouts transfers.
pub open spec fn payout_sum(payouts: Seq<Payout>) -> int
    decreases payouts.len(),
{
    if payouts.len() == 0 {
        0
    } else {
        payout_sum(payouts.drop_last()) + payouts.last().amount
    }
}

/// The metadata of the item as the callers hand it over: `None` when the
/// registry has no creator list for the item.
pub open spec fn view_creators(creators: Option<Vec<Creator>>) -> Option<Seq<Creator>> {
    match creators {
        Some(list) => Some(list@),
        None => None,
    }
}

/// The auxiliary payees hand-checked against registry and metadata: first
/// every treasury recipient in table order, then every creator in metadata
/// order.
pub open spec fn payees_match(g: GlobalPool, creators: Seq<Creator>, payees: Seq<u64>) -> bool {
    &&& forall|i: int| 0 <= i < g.team_count ==> payees[i] == g.team_treasury@[i]
    &&& forall|j: int|
        0 <= j < creators.len() ==> payees[g.team_count + j] == #[trigger] creators[j].address
}

/// Why `distribute` rejects a settlement, if it does: no treasury is
/// configured; the registry has no creator list; the payee list does not
/// have exactly one entry per treasury and per creator; or a payee does not
/// match the registry or metadata entry in its position.
pub open spec fn distribute_check(
    g: GlobalPool,
    creators: Option<Seq<Creator>>,
    payees: Seq<u64>,
) -> Option<MarketplaceError> {
    if g.team_count == 0 {
        Some(MarketplaceError::NoTeamTreasuryYet)
    } else if creators is None {
        Some(MarketplaceError::MetadataCreatorParseError)
    } else if g.team_count + creators->0.len() != payees.len() {
        Some(MarketplaceError::TeamTreasuryCountMismatch)
    } else if !payees_match(g, creators->0, payees) {
        Some(MarketplaceError::TeamTreasuryAddressMismatch)
    } else {
        None
    }
}

/// The fee and royalty pools never exceed the gross when the two rates sum
/// to at most one whole.
pub proof fn lemma_pools_bounded(gross: u64, royalty_bps: u64, fee_rate: u64)
    requires
        royalty_bps + fee_rate <= PERMYRIAD,
    ensures
        0 <= royalty_total(gross, royalty_bps),
        0 <= platform_fee(gross, fee_rate),
        royalty_total(gross, royalty_bps) + platform_fee(gross, fee_rate) <= gross,
        royalty_total(gross, royalty_bps) <= gross,
        platform_fee(gross, fee_rate) <= gross,
{
    let d = PERMYRIAD as int;
    let a = gross * royalty_bps;
    let b = gross * fee_rate;
    lemma_mul_nonnegative(gross as int, royalty_bps as int);
    lemma_mul_nonnegative(gross as int, fee_rate as int);
    lemma_div_pos_is_pos(a, d);
    lemma_div_pos_is_pos(b, d);
    lemma_div_sum_lower(a, b, d);
    lemma_mul_is_distributive_add(gross as int, royalty_bps as int, fee_rate as int);
    assert(a + b == gross * (royalty_bps + fee_rate));
    lemma_mul_inequality(royalty_bps + fee_rate, d, gross as int);
    assert(gross * (royalty_bps + fee_rate) == (royalty_bps + fee_rate) * gross) by {
        vstd::arithmetic::mul::lemma_mul_is_commutative(
            gross as int,
            royalty_bps + fee_rate as int,
        );
    }
    assert(a + b <= d * gross) by {
        vstd::arithmetic::mul::lemma_mul_is_commutative(d, gross as int);
    }
    lemma_div_is_ordered(a + b, d * gross, d);
    lemma_div_multiples_vanish(gross as int, d);
    assert(a / d + b / d <= gross);
    lemma_div_is_ordered(a, a + b, d);
    lemma_div_is_ordered(b, a + b, d);
}

/// Computes the settlement of one sale of `gross` by `seller`: the seller's
/// net first, then one cut of the platform fee per treasury, then one cut of
/// the royalty pool per creator with a nonzero share. Nothing is computed
/// unless the payee list matches the treasury table and the creator list
/// entry by entry; a rejected settlement transfers nothing.
#[verifier::loop_isolation(false)]
pub fn distribute(
    g: &GlobalPool,
    seller: u64,
    gross: u64,
    royalty_bps: u64,
    creators: &Option<Vec<Creator>>,
    payees: &Vec<u64>,
) -> (r: Result<Vec<Payout>, MarketplaceError>)
    requires
        g.wf(),
        gross <= MAX_GROSS,
        royalty_bps + g.market_fee_sol <= PERMYRIAD,
    ensures
        match r {
            Ok(payouts) => {
                &&& distribute_check(*g, view_creators(*creators), payees@) is None
                &&& payouts@ == expected_payouts(
                    seller,
                    gross,
                    royalty_bps,
                    g.market_fee_sol,
                    g.team_treasury@,
                    g.treasury_rate@,
                    view_creators(*creators)->0,
                )
            },
            Err(e) => distribute_check(*g, view_creators(*creators), payees@) == Some(e),
        },
{
    if g.team_count == 0 {
        return Err(MarketplaceError::NoTeamTreasuryYet);
    }
    let creator_list = match creators {
        Some(list) => list,
        None => {
            return Err(MarketplaceError::MetadataCreatorParseError);
        },
    };
    let tcount = g.team_treasury.len();
    if payees.len() < tcount || payees.len() - tcount != creator_list.len() {
        return Err(MarketplaceError::TeamTreasuryCountMismatch);
    }
    let mut i: usize = 0;
    while i < tcount
        invariant
            i <= tcount,
            g.wf(),
            tcount == g.team_treasury@.len(),
            forall|k: int| 0 <= k < i ==> payees@[k] == g.team_treasury@[k],
            payees@.len() == tcount + creator_list@.len(),
        decreases tcount - i,
    {
        if payees[i] != g.team_treasury[i] {
            return Err(MarketplaceError::TeamTreasuryAddressMismatch);
        }
        i = i + 1;
    }
    let ccount = creator_list.len();
    let mut j: usize = 0;
    while j < ccount
        invariant
            j <= ccount,
            g.wf(),
            tcount == g.team_treasury@.len(),
            ccount == creator_list@.len(),
            payees@.len() == tcount + ccount,
            forall|k: int| 0 <= k < tcount ==> payees@[k] == g.team_treasury@[k],
            forall|k: int|
                0 <= k < j ==> payees@[tcount + k] == #[trigger] creator_list@[k].address,
        decreases ccount - j,
    {
        if payees[tcount + j] != creator_list[j].address {
            return Err(MarketplaceError::TeamTreasuryAddressMismatch);
        }
        j = j + 1;
    }
    proof {
        lemma_pools_bounded(gross, royalty_bps, g.market_fee_sol);
        assert(gross * royalty_bps <= MAX_GROSS * PERMYRIAD) by {
            vstd::arithmetic::mul::lemma_mul_upper_bound(
                gross as int,
                MAX_GROSS as int,
                royalty_bps as int,
                PERMYRIAD as int,
            );
        }
        assert(gross * g.market_fee_sol <= MAX_GROSS * PERMYRIAD) by {
            vstd::arithmetic::mul::lemma_mul_upper_bound(
                gross as int,
                MAX_GROSS as int,
                g.market_fee_sol as int,
                PERMYRIAD as int,
            );
        }
    }
    let total_share_fee: u64 = gross * royalty_bps / PERMYRIAD;
    let fee_amount: u64 = gross * g.market_fee_sol / PERMYRIAD;
    let seller_amount: u64 = gross - total_share_fee - fee_amount;
    let ghost seller_part = seq![
        Payout { to: seller, amount: seller_net(gross, royalty_bps, g.market_fee_sol) as u64 },
    ];
    let mut payouts: Vec<Payout> = Vec::new();
    payouts.push(Payout { to: seller, amount: seller_amount });
    proof {
        assert(payouts@ =~= seller_part);
    }
    let mut i: usize = 0;
    while i < tcount
        invariant
            i <= tcount,
            g.wf(),
            gross <= MAX_GROSS,
            tcount == g.team_treasury@.len(),
            fee_amount == platform_fee(gross, g.market_fee_sol),
            fee_amount <= gross,
            payouts@ == seller_part + treasury_payouts(
                fee_amount as int,
                g.team_treasury@.take(i as int),
                g.treasury_rate@.take(i as int),
            ),
        decreases tcount - i,
    {
        proof {
            assert(fee_amount * g.treasury_rate@[i as int] <= MAX_GROSS * PERMYRIAD) by {
                vstd::arithmetic::mul::lemma_mul_upper_bound(
                    fee_amount as int,
                    MAX_GROSS as int,
                    g.treasury_rate@[i as int] as int,
                    PERMYRIAD as int,
                );
            }
        }
        let amt: u64 = fee_amount * g.treasury_rate[i] / PERMYRIAD;
        payouts.push(Payout { to: g.team_treasury[i], amount: amt });
        proof {
            let addrs = g.team_treasury@;
            let rates = g.treasury_rate@;
            assert(addrs.take(i + 1).drop_last() =~= addrs.take(i as int));
            assert(rates.take(i + 1).drop_last() =~= rates.take(i as int));
            assert(payouts@ =~= seller_part + treasury_payouts(
                fee_amount as int,
                addrs.take(i + 1),
                rates.take(i + 1),
            ));
        }
        i = i + 1;
    }
    proof {
        assert(g.team_treasury@.take(tcount as int) =~= g.team_treasury@);
        assert(g.treasury_rate@.take(tcount as int) =~= g.treasury_rate@);
    }
    let ghost fixed_part = seller_part + treasury_payouts(
        fee_amount as int,
        g.team_treasury@,
        g.treasury_rate@,
    );
    let mut j: usize = 0;
    while j < ccount
        invariant
            j <= ccount,
            gross <= MAX_GROSS,
            ccount == creator_list@.len(),
            total_share_fee == royalty_total(gross, royalty_bps),
            total_share_fee <= gross,
            payouts@ == fixed_part + creator_payouts(
                total_share_fee as int,
                creator_list@.take(j as int),
            ),
        decreases ccount - j,
    {
        let c = creator_list[j];
        if c.share != 0 {
            proof {
                assert(total_share_fee * (c.share as u64) <= MAX_GROSS * 255) by {
                    vstd::arithmetic::mul::lemma_mul_upper_bound(
                        total_share_fee as int,
                        MAX_GROSS as int,
                        c.share as int,
                        255,
                    );
                }
            }
            let amt: u64 = total_share_fee * (c.share as u64) / SHARE_DENOMINATOR;
            payouts.push(Payout { to: c.address, amount: amt });
        }
        proof {
            assert(creator_list@.take(j + 1).drop_last() =~= creator_list@.take(j as int));
            assert(payouts@ =~= fixed_part + creator_payouts(
                total_share_fee as int,
                creator_list@.take(j + 1),
            ));
        }
        j = j + 1;
    }
    proof {
        assert(creator_list@.take(ccount as int) =~= creator_list@);
    }
    Ok(payouts)
}

/// Sum of floors is at most floor of the sum:
/// `a / d + b / d <= (a + b) / d` for nonnegative `a`, `b`.
pub proof fn lemma_div_sum_lower(a: int, b: int, d: int)
    requires
        a >= 0,
        b >= 0,
        d > 0,
    ensures
        a / d + b / d <= (a + b) / d,
{
    lemma_fundamental_div_mod(a, d);
    lemma_fundamental_div_mod(b, d);
    let q = a / d + b / d;
    let rem = a % d + b % d;
    assert(a + b == rem + q * d) by {
        assert(d * (a / d) + d * (b / d) == d * q) by {
            lemma_mul_is_distributive_add(d, a / d, b / d);
        }
        assert(d * q == q * d) by {
            vstd::arithmetic::mul::lemma_mul_is_commutative(d, q);
        }
    }
    lemma_hoist_over_denominator(rem, q, d as nat);
    assert((a + b) / d == rem / d + q);
    lemma_div_pos_is_pos(rem, d);
}

/// The total a pool of `x` actually pays when cut at the rates `parts`, each
/// a fraction over the denominator `d`: the sum of `floor(x * parts[i] / d)`.
pub open spec fn cut_sum(x: int, parts: Seq<u64>, d: int) -> int
    decreases parts.len(),
{
    if parts.len() == 0 {
        0
    } else {
        cut_sum(x, parts.drop_last(), d) + x * parts.last() / d
    }
}

/// The royalty shares of a creator list, in order.
pub open spec fn shares_of(creators: Seq<Creator>) -> Seq<u64> {
    creators.map_values(|c: Creator| c.share as u64)
}

/// Concatenating payout lists adds their totals.
pub proof fn lemma_payout_sum_concat(a: Seq<Payout>, b: Seq<Payout>)
    ensures
        payout_sum(a + b) == payout_sum(a) + payout_sum(b),
    decreases b.len(),
{
    if b.len() == 0 {
        assert(a + b =~= a);
    } else {
        assert((a + b).drop_last() =~= a + b.drop_last());
        lemma_payout_sum_concat(a, b.drop_last());
    }
}

/// The treasury payouts transfer exactly the cut sum of the fee pool.
pub proof fn lemma_treasury_payout_sum(fee_amount: int, addresses: Seq<u64>, rates: Seq<u64>)
    requires
        0 <= fee_amount <= MAX_GROSS,
        addresses.len() == rates.len(),
        forall|i: int| 0 <= i < rates.len() ==> #[trigger] rates[i] <= PERMYRIAD,
    ensures
        payout_sum(treasury_payouts(fee_amount, addresses, rates)) == cut_sum(
            fee_amount,
            rates,
            PERMYRIAD as int,
        ),
    decreases rates.len(),
{
    if rates.len() > 0 {
        lemma_treasury_payout_sum(fee_amount, addresses.drop_last(), rates.drop_last());
        let v = fee_amount * rates.last() / (PERMYRIAD as int);
        let rest = treasury_payouts(fee_amount, addresses.drop_last(), rates.drop_last());
        let full = treasury_payouts(fee_amount, addresses, rates);
        assert(full.drop_last() =~= rest);
        assert(0 <= v <= u64::MAX) by {
            lemma_mul_nonnegative(fee_amount, rates.last() as int);
            lemma_div_pos_is_pos(fee_amount * rates.last(), PERMYRIAD as int);
            assert(fee_amount * rates.last() <= MAX_GROSS * PERMYRIAD) by {
                vstd::arithmetic::mul::lemma_mul_upper_bound(
                    fee_amount,
                    MAX_GROSS as int,
                    rates.last() as int,
                    PERMYRIAD as int,
                );
            }
            lemma_div_is_ordered(
                fee_amount * rates.last(),
                MAX_GROSS * PERMYRIAD,
                PERMYRIAD as int,
            );
        }
    }
}

/// The creator payouts transfer exactly the cut sum of the royalty pool:
/// skipping zero-share creators skips only zero amounts.
pub proof fn lemma_creator_payout_sum(royalty: int, creators: Seq<Creator>)
    requires
        0 <= royalty <= MAX_GROSS,
    ensures
        payout_sum(creator_payouts(royalty, creators)) == cut_sum(
            royalty,
            shares_of(creators),
            SHARE_DENOMINATOR as int,
        ),
    decreases creators.len(),
{
    if creators.len() > 0 {
        lemma_creator_payout_sum(royalty, creators.drop_last());
        assert(shares_of(creators).drop_last() =~= shares_of(creators.drop_last()));
        let c = creators.last();
        let d = SHARE_DENOMINATOR as int;
        let rest = creator_payouts(royalty, creators.drop_last());
        let full = creator_payouts(royalty, creators);
        if c.share == 0 {
            assert(royalty * (c.share as u64) == 0) by {
                vstd::arithmetic::mul::lemma_mul_by_zero_is_zero(royalty);
            }
        } else {
            assert(full.drop_last() =~= rest);
            let v = royalty * c.share / d;
            assert(0 <= v <= u64::MAX) by {
                lemma_mul_nonnegative(royalty, c.share as int);
                lemma_div_pos_is_pos(royalty * c.share, d);
                assert(royalty * c.share <= MAX_GROSS * 255) by {
                    vstd::arithmetic::mul::lemma_mul_upper_bound(
                        royalty,
                        MAX_GROSS as int,
                        c.share as int,
                        255,
                    );
                }
                lemma_div_is_ordered(royalty * c.share, MAX_GROSS * 255, d);
            }
        }
    }
}

/// The cut sum never exceeds the whole pool's share of the summed rates.
pub proof fn lemma_cut_sum_upper(x: int, parts: Seq<u64>, d: int)
    requires
        x >= 0,
        d > 0,
    ensures
        cut_sum(x, parts, d) <= x * rate_sum(parts) / d,
    decreases parts.len(),
{
    if parts.len() == 0 {
        assert(x * 0 == 0) by {
            vstd::arithmetic::mul::lemma_mul_by_zero_is_zero(x);
        }
    } else {
        let rest = parts.drop_last();
        lemma_cut_sum_upper(x, rest, d);
        crate::account::lemma_rate_sum_nonneg(rest);
        lemma_mul_nonnegative(x, rate_sum(rest));
        lemma_mul_nonnegative(x, parts.last() as int);
        lemma_div_sum_lower(x * rate_sum(rest), x * parts.last(), d);
        assert(x * rate_sum(rest) + x * parts.last() == x * rate_sum(parts)) by {
            lemma_mul_is_distributive_add(x, rate_sum(rest), parts.last() as int);
        }
    }
}

/// One whole pool, cut at rates that sum to the full denominator, pays out
/// at least the pool minus one unit per rate: each floor loses less than one
/// unit.
pub proof fn lemma_cut_sum_lower(x: int, parts: Seq<u64>, d: int)
    requires
        x >= 0,
        d > 0,
    ensures
        d * cut_sum(x, parts, d) >= x * rate_sum(parts) - parts.len() * (d - 1),
    decreases parts.len(),
{
    if parts.len() == 0 {
        assert(x * 0 == 0) by {
            vstd::arithmetic::mul::lemma_mul_by_zero_is_zero(x);
        }
    } else {
        let rest = parts.drop_last();
        let last = parts.last() as int;
        lemma_cut_sum_lower(x, rest, d);
        let y = x * last;
        lemma_mul_nonnegative(x, last);
        lemma_fundamental_div_mod(y, d);
        assert(d * (y / d) >= y - (d - 1));
        assert(d * cut_sum(x, parts, d) == d * cut_sum(x, rest, d) + d * (y / d)) by {
            lemma_mul_is_distributive_add(d, cut_sum(x, rest, d), y / d);
        }
        assert(x * rate_sum(rest) + y == x * rate_sum(parts)) by {
            lemma_mul_is_distributive_add(x, rate_sum(rest), last);
        }
        assert(parts.len() * (d - 1) == rest.len() * (d - 1) + (d - 1)) by {
            vstd::arithmetic::mul::lemma_mul_is_distributive_add_other_way(
                d - 1,
                rest.len() as int,
                1,
            );
        }
    }
}

/// A pool cut at rates that sum to exactly the whole denominator pays out
/// between the pool minus one unit per rate and the whole pool.
pub proof fn lemma_cut_sum_exact(x: int, parts: Seq<u64>, d: int)
    requires
        x >= 0,
        d > 0,
        parts.len() >= 1,
        rate_sum(parts) == d,
    ensures
        x - (parts.len() - 1) <= cut_sum(x, parts, d) <= x,
{
    lemma_cut_sum_upper(x, parts, d);
    assert(x * rate_sum(parts) == x * d);
    assert(x * d / d == x) by {
        vstd::arithmetic::mul::lemma_mul_is_commutative(x, d);
        lemma_div_multiples_vanish(x, d);
    }
    lemma_cut_sum_lower(x, parts, d);
    let n = parts.len() as int;
    let cs = cut_sum(x, parts, d);
    assert(d * cs >= x * d - n * (d - 1));
    assert(cs >= x - (n - 1)) by (nonlinear_arith)
        requires
            d * cs >= x * d - n * (d - 1),
            n >= 1,
            d > 0,
            cs <= x,
    ;
}

/// The number of creators behind a full set of shares is at least one.
pub proof fn lemma_full_shares_nonempty(creators: Seq<Creator>)
    requires
        rate_sum(shares_of(creators)) == SHARE_DENOMINATOR,
    ensures
        creators.len() >= 1,
{
}

/// Conservation of a settlement: when the treasury rates sum to one whole
/// and the creator shares sum to one hundred, the seller's net plus every
/// treasury payout plus every creator payout equals the gross minus a
/// rounding dust, and the dust is less than one unit per treasury plus one
/// unit per creator.
pub proof fn lemma_settlement_conservation(
    seller: u64,
    gross: u64,
    royalty_bps: u64,
    fee_rate: u64,
    addresses: Seq<u64>,
    rates: Seq<u64>,
    creators: Seq<Creator>,
)
    requires
        gross <= MAX_GROSS,
        royalty_bps + fee_rate <= PERMYRIAD,
        addresses.len() == rates.len(),
        rates.len() >= 1,
        rate_sum(rates) == PERMYRIAD,
        forall|i: int| 0 <= i < rates.len() ==> #[trigger] rates[i] <= PERMYRIAD,
        rate_sum(shares_of(creators)) == SHARE_DENOMINATOR,
    ensures
        ({
            let dust = gross - payout_sum(
                expected_payouts(seller, gross, royalty_bps, fee_rate, addresses, rates, creators),
            );
            0 <= dust <= (rates.len() - 1) + (creators.len() - 1)
        }),
{
    lemma_pools_bounded(gross, royalty_bps, fee_rate);
    let fee_amount = platform_fee(gross, fee_rate);
    let royalty = royalty_total(gross, royalty_bps);
    let net = seller_net(gross, royalty_bps, fee_rate);
    let head = seq![Payout { to: seller, amount: net as u64 }];
    let tp = treasury_payouts(fee_amount, addresses, rates);
    let cp = creator_payouts(royalty, creators);
    lemma_payout_sum_concat(head + tp, cp);
    lemma_payout_sum_concat(head, tp);
    assert(payout_sum(head) == net) by {
        assert(head.drop_last() =~= Seq::<Payout>::empty());
        assert(payout_sum(head.drop_last()) == 0);
        assert(head.last().amount == net as u64);
        assert(net as u64 == net);
    }
    lemma_treasury_payout_sum(fee_amount, addresses, rates);
    lemma_creator_payout_sum(royalty, creators);
    lemma_cut_sum_exact(fee_amount, rates, PERMYRIAD as int);
    lemma_full_shares_nonempty(creators);
    lemma_cut_sum_exact(royalty, shares_of(creators), SHARE_DENOMINATOR as int);
}

/// The bound of the dust by the larger payee class alone, where one of the
/// two classes has a single member: a single treasury loses no fee dust and
/// a single creator loses no royalty dust.
pub proof fn lemma_settlement_dust_single(
    seller: u64,
    gross: u64,
    royalty_bps: u64,
    fee_rate: u64,
    addresses: Seq<u64>,
    rates: Seq<u64>,
    creators: Seq<Creator>,
)
    requires
        gross <= MAX_GROSS,
        royalty_bps + fee_rate <= PERMYRIAD,
        addresses.len() == rates.len(),
        rates.len() >= 1,
        rate_sum(rates) == PERMYRIAD,
        forall|i: int| 0 <= i < rates.len() ==> #[trigger] rates[i] <= PERMYRIAD,
        rate_sum(shares_of(creators)) == SHARE_DENOMINATOR,
        rates.len() == 1 || creators.len() == 1,
    ensures
        ({
            let dust = gross - payout_sum(
                expected_payouts(seller, gross, royalty_bps, fee_rate, addresses, rates, creators),
            );
            0 <= dust && dust < (if rates.len() >= creators.len() {
                rates.len()
            } else {
                creators.len()
            })
        }),
{
    lemma_full_shares_nonempty(creators);
    lemma_settlement_conservation(
        seller,
        gross,
        royalty_bps,
        fee_rate,
        addresses,
        rates,
        creators,
    );
}

} // verus!
