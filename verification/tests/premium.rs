use niffyinsure::premium::{
    age_factor, build_line_items, compute_premium, compute_premium_checked, region_factor,
    type_factor, BASE,
};
use niffyinsure::types::{PolicyType, RegionTier};

#[test]
fn factor_tables() {
    assert_eq!(type_factor(&PolicyType::Auto), 15);
    assert_eq!(type_factor(&PolicyType::Health), 20);
    assert_eq!(type_factor(&PolicyType::Property), 10);
    assert_eq!(region_factor(&RegionTier::Low), 8);
    assert_eq!(region_factor(&RegionTier::Medium), 10);
    assert_eq!(region_factor(&RegionTier::High), 14);
}

#[test]
fn age_factor_bracket_edges() {
    assert_eq!(age_factor(0), 15);
    assert_eq!(age_factor(24), 15);
    assert_eq!(age_factor(25), 10);
    assert_eq!(age_factor(60), 10);
    assert_eq!(age_factor(61), 13);
    assert_eq!(age_factor(u32::MAX), 13);
}

#[test]
fn premium_exact_values() {
    assert_eq!(BASE, 10_000_000);
    // 15 + 10 + 10 + 6 = 41 tenths of the base premium
    assert_eq!(compute_premium(&PolicyType::Auto, &RegionTier::Medium, 30, 6), 41_000_000);
    // 20 + 14 + 15 + 3 = 52
    assert_eq!(compute_premium(&PolicyType::Health, &RegionTier::High, 22, 3), 52_000_000);
    // 10 + 8 + 13 + 1 = 32
    assert_eq!(compute_premium(&PolicyType::Property, &RegionTier::Low, 65, 1), 32_000_000);
    // 15 + 14 + 15 + 10 = 54
    assert_eq!(compute_premium(&PolicyType::Auto, &RegionTier::High, 18, 10), 54_000_000);
}

#[test]
fn premium_at_largest_inputs() {
    let p = compute_premium(&PolicyType::Health, &RegionTier::High, 0, u32::MAX);
    assert_eq!(p, (20 + 14 + 15 + u32::MAX as i128) * 1_000_000);
}

#[test]
fn checked_premium_matches_unchecked() {
    let types = [PolicyType::Auto, PolicyType::Health, PolicyType::Property];
    let regions = [RegionTier::Low, RegionTier::Medium, RegionTier::High];
    for t in types.iter() {
        for r in regions.iter() {
            for &age in [0u32, 24, 25, 60, 61, u32::MAX].iter() {
                for &risk in [0u32, 1, 10, 99, u32::MAX].iter() {
                    assert_eq!(
                        compute_premium_checked(t, r, age, risk),
                        Some(compute_premium(t, r, age, risk))
                    );
                }
            }
        }
    }
}

#[test]
fn premium_is_positive_and_at_least_cheapest_profile() {
    let cheapest = compute_premium(&PolicyType::Property, &RegionTier::Low, 40, 0);
    assert_eq!(cheapest, 28_000_000);
    assert!(compute_premium(&PolicyType::Auto, &RegionTier::Medium, 30, 6) > 0);
}

#[test]
fn premium_increases_with_risk_score() {
    let low = compute_premium(&PolicyType::Auto, &RegionTier::Low, 40, 2);
    let high = compute_premium(&PolicyType::Auto, &RegionTier::Low, 40, 7);
    assert!(low < high);
    assert_eq!(high - low, 5 * 1_000_000);
}

#[test]
fn line_items_breakdown() {
    let items = build_line_items(&PolicyType::Health, &RegionTier::High, 22, 3).unwrap();
    assert_eq!(items.len(), 4);
    assert_eq!(items[0].component, "type");
    assert_eq!(items[0].factor, 20);
    assert_eq!(items[0].amount, 20_000_000);
    assert_eq!(items[1].component, "region");
    assert_eq!(items[1].factor, 14);
    assert_eq!(items[1].amount, 14_000_000);
    assert_eq!(items[2].component, "age");
    assert_eq!(items[2].factor, 15);
    assert_eq!(items[2].amount, 15_000_000);
    assert_eq!(items[3].component, "risk_score");
    assert_eq!(items[3].factor, 3);
    assert_eq!(items[3].amount, 3_000_000);
}

#[test]
fn line_items_sum_to_premium() {
    let types = [PolicyType::Auto, PolicyType::Health, PolicyType::Property];
    let regions = [RegionTier::Low, RegionTier::Medium, RegionTier::High];
    for t in types.iter() {
        for r in regions.iter() {
            for &age in [18u32, 30, 70].iter() {
                for &risk in [1u32, 5, 10, u32::MAX].iter() {
                    let items = build_line_items(t, r, age, risk).unwrap();
                    let sum: i128 = items.iter().map(|i| i.amount).sum();
                    assert_eq!(sum, compute_premium(t, r, age, risk));
                }
            }
        }
    }
}
