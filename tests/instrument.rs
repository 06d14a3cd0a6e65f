use barter_integration::instrument::{FutureKind, Instrument, InstrumentKind, Symbol};

#[test]
fn symbol_is_lower_case() {
    assert_eq!(Symbol::new("BTC").as_str(), "btc");
    assert_eq!(Symbol::new("Eth").as_str(), "eth");
    assert_eq!(Symbol::new("usdt").as_str(), "usdt");
}

#[test]
fn symbol_ignores_case() {
    for s in ["btc", "UsDt", "eth-PERP", "", "1000shib"] {
        assert_eq!(Symbol::new(s), Symbol::new(&s.to_uppercase()));
    }
}

#[test]
fn symbol_lower_cases_beyond_ascii() {
    assert_eq!(Symbol::new("ÉTH").as_str(), "éth");
}

#[test]
fn instrument_new_normalises_both_symbols() {
    let i = Instrument::new("BTC", "UsDt", InstrumentKind::Future(FutureKind::Perpetual));
    assert_eq!(i.base.as_str(), "btc");
    assert_eq!(i.quote.as_str(), "usdt");
    assert_eq!(i.kind, InstrumentKind::Future(FutureKind::Perpetual));
    assert_eq!(i, Instrument::new("btc", "usdt", InstrumentKind::Future(FutureKind::Perpetual)));
    assert_ne!(i, Instrument::new("btc", "usdt", InstrumentKind::Spot));
    assert_ne!(i, Instrument::new("eth", "usdt", InstrumentKind::Future(FutureKind::Perpetual)));
}

#[test]
fn instrument_duplicate_is_equal() {
    let i = Instrument::new("ETH", "usdt", InstrumentKind::Spot);
    assert_eq!(i.duplicate(), i);
}

#[test]
fn kinds_default() {
    assert_eq!(InstrumentKind::default(), InstrumentKind::Spot);
    assert_eq!(FutureKind::default(), FutureKind::Perpetual);
}

#[test]
fn labels() {
    assert_eq!(FutureKind::Expiry.name(), "Expiry");
    assert_eq!(InstrumentKind::Spot.label(), "Spot");
    assert_eq!(InstrumentKind::Future(FutureKind::Perpetual).label(), "Future::Perpetual");
    let i = Instrument::new("BTC", "usdt", InstrumentKind::Future(FutureKind::Expiry));
    assert_eq!(i.label(), "(btc_usdt, Future::Expiry)");
}

#[test]
fn instrument_rebuilt_from_its_text_is_equal() {
    let i = Instrument::new("BTC", "Usdt", InstrumentKind::Future(FutureKind::Expiry));
    let j = Instrument::new(i.base.as_str(), i.quote.as_str(), i.kind);
    assert_eq!(i, j);
    assert_eq!(Symbol::new(Symbol::new("EtH").as_str()), Symbol::new("EtH"));
}
