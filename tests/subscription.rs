use barter_integration::instrument::{FutureKind, Instrument, InstrumentKind};
use barter_integration::subscription::{ExchangeId, StreamKind, SubscriptionId};

fn perp(base: &str) -> Instrument {
    Instrument::new(base, "usdt", InstrumentKind::Future(FutureKind::Perpetual))
}

#[test]
fn subscription_id_text() {
    let id = SubscriptionId::derive(ExchangeId::BinanceFutures, &perp("BTC"), StreamKind::Trades);
    assert_eq!(id.as_str(), "binance_futures|btc|usdt|future_perpetual|trades");
    let spot = Instrument::new("eth", "btc", InstrumentKind::Spot);
    let id = SubscriptionId::derive(ExchangeId::Ftx, &spot, StreamKind::OrderBook);
    assert_eq!(id.as_str(), "ftx|eth|btc|spot|order_book");
}

#[test]
fn subscription_id_is_deterministic() {
    let a = SubscriptionId::derive(ExchangeId::Binance, &perp("btc"), StreamKind::Quotes);
    let b = SubscriptionId::derive(ExchangeId::Binance, &perp("BTC"), StreamKind::Quotes);
    assert_eq!(a, b);
    assert_eq!(a.duplicate(), b);
}

#[test]
fn subscription_id_changes_with_each_input() {
    let base = SubscriptionId::derive(ExchangeId::Binance, &perp("btc"), StreamKind::Trades);
    let others = [
        SubscriptionId::derive(ExchangeId::Ftx, &perp("btc"), StreamKind::Trades),
        SubscriptionId::derive(ExchangeId::Binance, &perp("eth"), StreamKind::Trades),
        SubscriptionId::derive(
            ExchangeId::Binance,
            &Instrument::new("btc", "usd", InstrumentKind::Future(FutureKind::Perpetual)),
            StreamKind::Trades,
        ),
        SubscriptionId::derive(
            ExchangeId::Binance,
            &Instrument::new("btc", "usdt", InstrumentKind::Future(FutureKind::Expiry)),
            StreamKind::Trades,
        ),
        SubscriptionId::derive(ExchangeId::Binance, &perp("btc"), StreamKind::Quotes),
    ];
    for o in others.iter() {
        assert_ne!(&base, o);
    }
}

#[test]
fn names() {
    assert_eq!(ExchangeId::BinanceFutures.name(), "binance_futures");
    assert_eq!(InstrumentKind::Spot.name(), "spot");
    assert_eq!(StreamKind::OrderBook.name(), "order_book");
}
