use niffyinsure::storage::{get_claim_counter, get_policy_counter, next_claim_id, next_policy_id};

#[test]
fn missing_counters_read_as_zero() {
    assert_eq!(get_policy_counter(None), 0);
    assert_eq!(get_claim_counter(None), 0);
    assert_eq!(get_policy_counter(Some(7)), 7);
    assert_eq!(get_claim_counter(Some(9)), 9);
}

#[test]
fn first_ids_are_one() {
    assert_eq!(next_policy_id(None), 1);
    assert_eq!(next_claim_id(None), 1);
}

#[test]
fn ids_are_consecutive() {
    let mut stored: Option<u32> = None;
    for expected in 1u32..=5 {
        let id = next_policy_id(stored);
        assert_eq!(id, expected);
        stored = Some(id);
        assert_eq!(get_policy_counter(stored), id);
    }
    let mut claims: Option<u64> = Some(41);
    for expected in 42u64..=45 {
        let id = next_claim_id(claims);
        assert_eq!(id, expected);
        claims = Some(id);
        assert_eq!(get_claim_counter(claims), id);
    }
}

#[test]
fn ids_near_the_top_of_the_range() {
    assert_eq!(next_policy_id(Some(u32::MAX - 1)), u32::MAX);
    assert_eq!(next_claim_id(Some(u64::MAX - 1)), u64::MAX);
}
