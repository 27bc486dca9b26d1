use niffyinsure::policy::{quote_error_from_code, QuoteError};

#[test]
fn quote_error_codes() {
    assert_eq!(quote_error_from_code(1), QuoteError::InvalidAge);
    assert_eq!(quote_error_from_code(2), QuoteError::InvalidRiskScore);
    assert_eq!(quote_error_from_code(3), QuoteError::InvalidQuoteTtl);
    assert_eq!(quote_error_from_code(0), QuoteError::ArithmeticOverflow);
    assert_eq!(quote_error_from_code(4), QuoteError::ArithmeticOverflow);
    assert_eq!(quote_error_from_code(u32::MAX), QuoteError::ArithmeticOverflow);
}
