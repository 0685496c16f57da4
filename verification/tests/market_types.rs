//! Equality of outcomes.

use echo_markets::market::Outcome;

#[test]
fn test_outcome_equality() {
    assert_eq!(Outcome::Yes, Outcome::Yes);
    assert_ne!(Outcome::Yes, Outcome::No);
}
