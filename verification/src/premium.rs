//! Annual premium pricing: factor tables, the premium formula, its checked
//! variant, and the per-component breakdown shown to users.
use vstd::prelude::*;
use crate::types::{PolicyType, PremiumQuoteLineItem, RegionTier};

verus! {

/// Base annual premium in stroops (1 XLM = 10_000_000 stroops).
pub const BASE: i128 = 10_000_000;

/// Multiplier (in tenths) of a coverage category.
pub open spec fn type_factor_of(policy_type: PolicyType) -> int {
    match policy_type {
        PolicyType::Auto => 15,
        PolicyType::Health => 20,
        PolicyType::Property => 10,
    }
}

/// Multiplier (in tenths) of a region tier.
pub open spec fn region_factor_of(region: RegionTier) -> int {
    match region {
        RegionTier::Low => 8,
        RegionTier::Medium => 10,
        RegionTier::High => 14,
    }
}

/// Multiplier (in tenths) of an age: young drivers and seniors pay more.
pub open spec fn age_factor_of(age: int) -> int {
    if age < 25 {
        15
    } else if age > 60 {
        13
    } else {
        10
    }
}

/// Sum of the four pricing factors; the risk score counts as its own factor.
pub open spec fn factor_sum(policy_type: PolicyType, region: RegionTier, age: int, risk_score: int) -> int {
    type_factor_of(policy_type) + region_factor_of(region) + age_factor_of(age) + risk_score
}

/// The annual premium: the base premium scaled by the factor sum in tenths.
pub open spec fn premium_of(policy_type: PolicyType, region: RegionTier, age: int, risk_score: int) -> int {
    BASE * factor_sum(policy_type, region, age, risk_score) / 10
}

/// The part of the annual premium contributed by one factor.
pub open spec fn component_amount(factor: int) -> int {
    BASE * factor / 10
}

/// The premium as computed with checked `i128` arithmetic: `None` exactly
/// when the scaled factor sum leaves the `i128` range.
pub open spec fn checked_premium_of(
    policy_type: PolicyType,
    region: RegionTier,
    age: int,
    risk_score: int,
) -> Option<i128> {
    let raw = factor_sum(policy_type, region, age, risk_score);
    if BASE * raw > i128::MAX || BASE * raw < i128::MIN {
        None
    } else {
        Some((BASE * raw / 10) as i128)
    }
}

/// One line of a premium breakdown: its label, factor and amount.
pub open spec fn line_item_is(item: PremiumQuoteLineItem, label: Seq<char>, factor: int) -> bool {
    &&& item.component@ == label
    &&& item.factor == factor
    &&& item.amount == component_amount(factor)
}

/// The premium breakdown of a risk profile: the type, region, age and
/// risk-score components, in that order.
pub open spec fn is_breakdown(
    items: Seq<PremiumQuoteLineItem>,
    policy_type: PolicyType,
    region: RegionTier,
    age: int,
    risk_score: int,
) -> bool {
    &&& items.len() == 4
    &&& line_item_is(items[0], "type"@, type_factor_of(policy_type))
    &&& line_item_is(items[1], "region"@, region_factor_of(region))
    &&& line_item_is(items[2], "age"@, age_factor_of(age))
    &&& line_item_is(items[3], "risk_score"@, risk_score)
}

/// Returns the multiplier of a coverage category.
pub fn type_factor(policy_type: &PolicyType) -> (r: i128)
    ensures
        r == type_factor_of(*policy_type),
        *policy_type == PolicyType::Auto ==> r == 15,
        *policy_type == PolicyType::Health ==> r == 20,
        *policy_type == PolicyType::Property ==> r == 10,
{
    match policy_type {
        PolicyType::Auto => 15,
        PolicyType::Health => 20,
        PolicyType::Property => 10,
    }
}

/// Returns the multiplier of a region tier.
pub fn region_factor(region: &RegionTier) -> (r: i128)
    ensures
        r == region_factor_of(*region),
        *region == RegionTier::Low ==> r == 8,
        *region == RegionTier::Medium ==> r == 10,
        *region == RegionTier::High ==> r == 14,
{
    match region {
        RegionTier::Low => 8,
        RegionTier::Medium => 10,
        RegionTier::High => 14,
    }
}

/// Returns the multiplier of an age.
pub fn age_factor(age: u32) -> (r: i128)
    ensures
        r == age_factor_of(age as int),
        age < 25 ==> r == 15,
        25 <= age <= 60 ==> r == 10,
        age > 60 ==> r == 13,
{
    if age < 25 {
        15
    } else if age > 60 {
        13
    } else {
        10
    }
}

/// Returns the annual premium, in stroops, for the given risk profile.
/// `risk_score` runs from 1 to 10; a higher score is riskier.
pub fn compute_premium(
    policy_type: &PolicyType,
    region: &RegionTier,
    age: u32,
    risk_score: u32,
) -> (r: i128)
    ensures
        r == premium_of(*policy_type, *region, age as int, risk_score as int),
        r == 1_000_000 * ((match *policy_type {
            PolicyType::Auto => 15int,
            PolicyType::Health => 20int,
            PolicyType::Property => 10int,
        }) + (match *region {
            RegionTier::Low => 8int,
            RegionTier::Medium => 10int,
            RegionTier::High => 14int,
        }) + (if age < 25 {
            15int
        } else if age > 60 {
            13int
        } else {
            10int
        }) + risk_score),
{
    let type_factor: i128 = match policy_type {
        PolicyType::Auto => 15,
        PolicyType::Health => 20,
        PolicyType::Property => 10,
    };
    let region_factor: i128 = match region {
        RegionTier::Low => 8,
        RegionTier::Medium => 10,
        RegionTier::High => 14,
    };
    let age_factor: i128 = if age < 25 {
        15
    } else if age > 60 {
        13
    } else {
        10
    };
    let sum: i128 = type_factor + region_factor + age_factor + risk_score as i128;
    assert(0 <= BASE * sum <= BASE * (49 + u32::MAX)) by (nonlinear_arith)
        requires
            0 <= sum <= 49 + u32::MAX,
    ;
    BASE * sum / 10
}

/// The premium computed with checked arithmetic; `None` on overflow.
pub fn compute_premium_checked(
    policy_type: &PolicyType,
    region: &RegionTier,
    age: u32,
    risk_score: u32,
) -> (r: Option<i128>)
    ensures
        r == checked_premium_of(*policy_type, *region, age as int, risk_score as int),
        r == Some((1_000_000 * ((match *policy_type {
            PolicyType::Auto => 15int,
            PolicyType::Health => 20int,
            PolicyType::Property => 10int,
        }) + (match *region {
            RegionTier::Low => 8int,
            RegionTier::Medium => 10int,
            RegionTier::High => 14int,
        }) + (if age < 25 {
            15int
        } else if age > 60 {
            13int
        } else {
            10int
        }) + risk_score)) as i128),
{
    let tf = type_factor(policy_type);
    let rf = region_factor(region);
    let af = age_factor(age);
    let raw = tf.checked_add(rf)?.checked_add(af)?.checked_add(risk_score as i128)?;
    BASE.checked_mul(raw)?.checked_div(10)
}

/// `BASE * factor / 10` with checked arithmetic, for a factor in
/// `0..=u32::MAX`; this never overflows.
fn scaled_component(factor: i128) -> (r: Option<i128>)
    requires
        0 <= factor <= u32::MAX,
    ensures
        r == Some(component_amount(factor as int) as i128),
        0 <= component_amount(factor as int) <= i128::MAX,
{
    assert(0 <= BASE * factor <= BASE * u32::MAX) by (nonlinear_arith)
        requires
            0 <= factor <= u32::MAX,
    ;
    let scaled = BASE.checked_mul(factor)?;
    scaled.checked_div(10)
}

/// Builds the per-component premium breakdown shown with a quote.
pub fn build_line_items(
    policy_type: &PolicyType,
    region: &RegionTier,
    age: u32,
    risk_score: u32,
) -> (r: Option<Vec<PremiumQuoteLineItem>>)
    ensures
        r is Some,
        is_breakdown(r->0@, *policy_type, *region, age as int, risk_score as int),
        r->0@.len() == 4,
        r->0@[0].component@ == "type"@,
        r->0@[1].component@ == "region"@,
        r->0@[2].component@ == "age"@,
        r->0@[3].component@ == "risk_score"@,
        r->0@[0].factor == (match *policy_type {
            PolicyType::Auto => 15int,
            PolicyType::Health => 20int,
            PolicyType::Property => 10int,
        }),
        r->0@[1].factor == (match *region {
            RegionTier::Low => 8int,
            RegionTier::Medium => 10int,
            RegionTier::High => 14int,
        }),
        r->0@[2].factor == (if age < 25 {
            15int
        } else if age > 60 {
            13int
        } else {
            10int
        }),
        r->0@[3].factor == risk_score as i128,
        forall|i: int| 0 <= i < 4 ==> #[trigger] r->0@[i].amount == 1_000_000 * r->0@[i].factor,
{
    let tf = type_factor(policy_type);
    let rf = region_factor(region);
    let af = age_factor(age);
    let rsk = risk_score as i128;

    let base_type = scaled_component(tf)?;
    let base_region = scaled_component(rf)?;
    let base_age = scaled_component(af)?;
    let base_risk = scaled_component(rsk)?;

    let mut items: Vec<PremiumQuoteLineItem> = Vec::new();
    items.push(PremiumQuoteLineItem { component: "type".to_owned(), factor: tf, amount: base_type });
    items.push(
        PremiumQuoteLineItem { component: "region".to_owned(), factor: rf, amount: base_region },
    );
    items.push(PremiumQuoteLineItem { component: "age".to_owned(), factor: af, amount: base_age });
    items.push(
        PremiumQuoteLineItem {
            component: "risk_score".to_owned(),
            factor: rsk,
            amount: base_risk,
        },
    );
    Some(items)
}

/// A pricing component scaled by the base premium is exactly one million
/// stroops per factor unit.
proof fn lemma_component_exact(factor: int)
    ensures
        component_amount(factor) == 1_000_000 * factor,
{
    assert((10_000_000 * factor) / 10 == 1_000_000 * factor) by (nonlinear_arith);
}

/// The checked premium never overflows: for every coverage category, region,
/// age and risk score it is `Some` of the unchecked premium.
pub proof fn lemma_checked_premium_agrees(
    policy_type: PolicyType,
    region: RegionTier,
    age: u32,
    risk_score: u32,
)
    ensures
        0 < premium_of(policy_type, region, age as int, risk_score as int) <= i128::MAX,
        checked_premium_of(policy_type, region, age as int, risk_score as int) == Some(
            premium_of(policy_type, region, age as int, risk_score as int) as i128,
        ),
{
    let raw = factor_sum(policy_type, region, age as int, risk_score as int);
    lemma_component_exact(raw);
    assert(0 < 10_000_000 * raw <= 10_000_000 * (49 + u32::MAX)) by (nonlinear_arith)
        requires
            28 <= raw <= 49 + u32::MAX,
    ;
}

/// The breakdown adds up: the four component amounts of a quote sum to its
/// annual premium.
pub proof fn lemma_breakdown_sums_to_premium(
    items: Seq<PremiumQuoteLineItem>,
    policy_type: PolicyType,
    region: RegionTier,
    age: u32,
    risk_score: u32,
)
    requires
        is_breakdown(items, policy_type, region, age as int, risk_score as int),
    ensures
        items[0].amount + items[1].amount + items[2].amount + items[3].amount == premium_of(
            policy_type,
            region,
            age as int,
            risk_score as int,
        ),
{
    lemma_component_exact(type_factor_of(policy_type));
    lemma_component_exact(region_factor_of(region));
    lemma_component_exact(age_factor_of(age as int));
    lemma_component_exact(risk_score as int);
    lemma_component_exact(factor_sum(policy_type, region, age as int, risk_score as int));
}

/// A higher risk score costs strictly more, all else equal: each point of
/// risk score adds one million stroops to the annual premium.
pub proof fn lemma_premium_increases_with_risk(
    policy_type: PolicyType,
    region: RegionTier,
    age: u32,
    lower: u32,
    higher: u32,
)
    requires
        lower < higher,
    ensures
        premium_of(policy_type, region, age as int, lower as int) < premium_of(
            policy_type,
            region,
            age as int,
            higher as int,
        ),
        premium_of(policy_type, region, age as int, higher as int) - premium_of(
            policy_type,
            region,
            age as int,
            lower as int,
        ) == 1_000_000 * (higher - lower),
{
    lemma_component_exact(factor_sum(policy_type, region, age as int, lower as int));
    lemma_component_exact(factor_sum(policy_type, region, age as int, higher as int));
}

/// Every premium is at least the cheapest profile's 28 million stroops
/// (Property, Low tier, age 25 to 60, risk score 0), so it is positive.
pub proof fn lemma_premium_lower_bound(
    policy_type: PolicyType,
    region: RegionTier,
    age: u32,
    risk_score: u32,
)
    ensures
        premium_of(policy_type, region, age as int, risk_score as int) >= 28_000_000,
{
    lemma_component_exact(factor_sum(policy_type, region, age as int, risk_score as int));
}

/// The age multiplier goes by three brackets: 15 below 25, 10 from 25 to 60
/// inclusive, and 13 above 60.
pub proof fn lemma_age_brackets(age: u32)
    ensures
        age < 25 ==> age_factor_of(age as int) == 15,
        25 <= age <= 60 ==> age_factor_of(age as int) == 10,
        age > 60 ==> age_factor_of(age as int) == 13,
{
}

/// The premium is one million stroops per unit of the factor sum, with the
/// coverage multipliers Auto 15, Health 20, Property 10, the region
/// multipliers Low 8, Medium 10, High 14 and the age brackets above; the
/// checked premium is `Some` of the same value.
pub proof fn lemma_premium_formula(
    policy_type: PolicyType,
    region: RegionTier,
    age: u32,
    risk_score: u32,
)
    ensures
        premium_of(policy_type, region, age as int, risk_score as int) == 1_000_000 * ((match policy_type {
            PolicyType::Auto => 15int,
            PolicyType::Health => 20int,
            PolicyType::Property => 10int,
        }) + (match region {
            RegionTier::Low => 8int,
            RegionTier::Medium => 10int,
            RegionTier::High => 14int,
        }) + (if age < 25 {
            15int
        } else if age > 60 {
            13int
        } else {
            10int
        }) + risk_score),
        checked_premium_of(policy_type, region, age as int, risk_score as int) == Some(
            (1_000_000 * ((match policy_type {
            PolicyType::Auto => 15int,
            PolicyType::Health => 20int,
            PolicyType::Property => 10int,
        }) + (match region {
            RegionTier::Low => 8int,
            RegionTier::Medium => 10int,
            RegionTier::High => 14int,
        }) + (if age < 25 {
            15int
        } else if age > 60 {
            13int
        } else {
            10int
        }) + risk_score)) as i128,
        ),
        25 <= age <= 60 ==> premium_of(policy_type, region, age as int, risk_score as int)
            == 1_000_000 * (type_factor_of(policy_type) + region_factor_of(region) + 10
            + risk_score),
{
    lemma_component_exact(factor_sum(policy_type, region, age as int, risk_score as int));
    lemma_checked_premium_agrees(policy_type, region, age, risk_score);
}

/// Each line of a breakdown carries its own component: the "type" line the
/// coverage multiplier, the "region" line the region multiplier, the "age"
/// line the age bracket's multiplier and the "risk_score" line the risk
/// score, each with an amount of one million stroops per factor unit.
pub proof fn lemma_breakdown_lines(
    items: Seq<PremiumQuoteLineItem>,
    policy_type: PolicyType,
    region: RegionTier,
    age: u32,
    risk_score: u32,
)
    requires
        is_breakdown(items, policy_type, region, age as int, risk_score as int),
    ensures
        items.len() == 4,
        items[0].component@ == "type"@,
        items[1].component@ == "region"@,
        items[2].component@ == "age"@,
        items[3].component@ == "risk_score"@,
        items[0].factor == (match policy_type {
            PolicyType::Auto => 15int,
            PolicyType::Health => 20int,
            PolicyType::Property => 10int,
        }),
        items[1].factor == (match region {
            RegionTier::Low => 8int,
            RegionTier::Medium => 10int,
            RegionTier::High => 14int,
        }),
        items[2].factor == (if age < 25 {
            15int
        } else if age > 60 {
            13int
        } else {
            10int
        }),
        items[3].factor == risk_score,
        forall|i: int| 0 <= i < 4 ==> #[trigger] items[i].amount == 1_000_000 * items[i].factor,
{
    lemma_component_exact(items[0].factor as int);
    lemma_component_exact(items[1].factor as int);
    lemma_component_exact(items[2].factor as int);
    lemma_component_exact(items[3].factor as int);
}

} // verus!
