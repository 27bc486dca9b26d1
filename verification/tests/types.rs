use niffyinsure::types::{
    ClaimStatus, ParametricClaim, PremiumQuote, PremiumQuoteLineItem, TriggerStatus, VoteOption,
    DETAILS_MAX_LEN, IMAGE_URLS_MAX, IMAGE_URL_MAX_LEN, REASON_MAX_LEN,
};

#[test]
fn terminal_claim_states() {
    assert!(!ClaimStatus::Processing.is_terminal());
    assert!(ClaimStatus::Approved.is_terminal());
    assert!(ClaimStatus::Rejected.is_terminal());
}

#[test]
fn field_size_limits() {
    assert_eq!(DETAILS_MAX_LEN, 256);
    assert_eq!(IMAGE_URL_MAX_LEN, 128);
    assert_eq!(IMAGE_URLS_MAX, 5);
    assert_eq!(REASON_MAX_LEN, 128);
}

#[test]
fn records_carry_their_fields() {
    let quote = PremiumQuote {
        total_premium: 41_000_000,
        line_items: Some(vec![PremiumQuoteLineItem {
            component: "type".to_string(),
            factor: 15,
            amount: 15_000_000,
        }]),
        valid_until_ledger: 100,
    };
    let copy = quote.clone();
    assert_eq!(copy.total_premium, 41_000_000);
    assert_eq!(copy.line_items.unwrap()[0].component, "type");
    let claim = ParametricClaim {
        claim_id: 1,
        trigger_id: 2,
        amount: 5,
        status: TriggerStatus::Pending,
        resolved_ledger: 9,
    };
    assert_eq!(claim.status, TriggerStatus::Pending);
    assert_ne!(VoteOption::Approve, VoteOption::Reject);
}
