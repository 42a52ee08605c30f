use quant_core::adapter::screen_price_history;
use quant_core::adapter::settle_market_fetch;
use quant_core::adapter::settle_rate_fetch;
use quant_core::adapter::FetchState;
use quant_core::adapter::RateFetchOutcome;
use quant_core::adapter::RATE_FALLBACK_BITS;
use quant_core::params::MarketUpdate;

#[test]
fn rate_transport_error_delivers_the_fixed_fallback() {
    let (state, messages) = settle_rate_fetch(&RateFetchOutcome::TransportError);
    assert_eq!(state, FetchState::Delivered);
    assert_eq!(messages, vec![MarketUpdate::RiskFreeRate(RATE_FALLBACK_BITS)]);
    match messages[0] {
        MarketUpdate::RiskFreeRate(word) => assert_eq!(f64::from_bits(word), 10.75),
        ref other => panic!("unexpected message: {:?}", other),
    }
}

#[test]
fn rate_fetch_without_a_client_is_dropped_without_fallback() {
    let (state, messages) = settle_rate_fetch(&RateFetchOutcome::ClientUnavailable);
    assert_eq!(state, FetchState::Dropped);
    assert!(messages.is_empty());
}

#[test]
fn rate_success_with_zero_quotes_is_dropped_without_fallback() {
    let (state, messages) = settle_rate_fetch(&RateFetchOutcome::Quotes(Vec::new()));
    assert_eq!(state, FetchState::Dropped);
    assert!(messages.is_empty());
}

#[test]
fn rate_success_delivers_the_most_recent_quote() {
    let quotes = vec![10.0f64.to_bits(), 10.5f64.to_bits(), 11.25f64.to_bits()];
    let (state, messages) = settle_rate_fetch(&RateFetchOutcome::Quotes(quotes));
    assert_eq!(state, FetchState::Delivered);
    assert_eq!(messages, vec![MarketUpdate::RiskFreeRate(11.25f64.to_bits())]);
}

#[test]
fn failed_market_fetch_is_dropped_silently() {
    let (state, messages) = settle_market_fetch(None);
    assert_eq!(state, FetchState::Dropped);
    assert!(messages.is_empty());
}

#[test]
fn market_fetch_delivers_price_strictly_before_volatility() {
    let price = 36.4f64.to_bits();
    let volatility = 28.9f64.to_bits();
    let (state, messages) = settle_market_fetch(Some((price, volatility)));
    assert_eq!(state, FetchState::Delivered);
    assert_eq!(
        messages,
        vec![MarketUpdate::Price(price), MarketUpdate::Volatility(volatility)],
    );
}

fn bits_of(closes: &[f64]) -> Vec<u64> {
    closes.iter().map(|c| c.to_bits()).collect()
}

#[test]
fn screening_rejects_a_short_series() {
    assert!(screen_price_history(&Vec::new()).is_none());
    assert!(screen_price_history(&bits_of(&[100.0])).is_none());
}

#[test]
fn screening_keeps_every_pair_of_a_positive_series() {
    let closes = bits_of(&[100.0, 105.0, 100.0]);
    let (last, points) = screen_price_history(&closes).unwrap();
    assert_eq!(f64::from_bits(last), 100.0);
    assert_eq!(points, vec![1usize, 2usize]);
}

#[test]
fn screening_skips_pairs_after_a_nonpositive_close() {
    let closes = bits_of(&[100.0, -5.0, 100.0]);
    let (last, points) = screen_price_history(&closes).unwrap();
    assert_eq!(f64::from_bits(last), 100.0);
    assert_eq!(points, vec![1usize]);

    let closes = bits_of(&[0.0, 100.0]);
    let (_, points) = screen_price_history(&closes).unwrap();
    assert!(points.is_empty());
}

#[test]
fn screening_reads_positivity_exactly_as_the_floating_comparison() {
    let samples = [
        1.0,
        1.0e-300,
        f64::MIN_POSITIVE,
        f64::INFINITY,
        f64::MAX,
        0.0,
        -0.0,
        -3.5,
        f64::NEG_INFINITY,
        f64::NAN,
        -f64::NAN,
    ];
    for prev in samples {
        let closes = vec![prev.to_bits(), 2.0f64.to_bits()];
        let (_, points) = screen_price_history(&closes).unwrap();
        assert_eq!(
            !points.is_empty(),
            prev > 0.0,
            "positivity screen disagrees on {:?}",
            prev,
        );
    }
}
