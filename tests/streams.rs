use barter_integration::instrument::{FutureKind, InstrumentKind};
use barter_integration::join::JoinedStream;
use barter_integration::socket::actor::{SocketAction, SocketEvent, SocketState};
use barter_integration::socket::error::SocketError;
use barter_integration::streams::{settle, StreamBuilder, Streams};
use barter_integration::subscription::{ExchangeId, StreamKind};

const PERP: InstrumentKind = InstrumentKind::Future(FutureKind::Perpetual);

#[test]
fn stream_builder_works() {
    let builder = Streams::<u8>::builder().subscribe(
        ExchangeId::BinanceFutures,
        vec![("btc", "usdt", PERP, StreamKind::Trades), ("eth", "usdt", PERP, StreamKind::Trades)],
    );
    let mut sockets = builder.sockets();
    assert_eq!(sockets.len(), 1);
    let socket = &mut sockets[0];
    assert_eq!(socket.exchange(), ExchangeId::BinanceFutures);
    let ids = match socket.step::<&str>(SocketEvent::Connected) {
        SocketAction::SendSubscribe(ids) => ids,
        _ => panic!("expected subscribe requests"),
    };
    socket.step::<&str>(SocketEvent::SubscribeAck);
    socket.step::<&str>(SocketEvent::SubscribeAck);
    assert_eq!(socket.state(), SocketState::Streaming);

    let mut events = Vec::new();
    for (id, data) in [(ids[1].as_str(), "eth trade"), (ids[0].as_str(), "btc trade")] {
        match socket.step(SocketEvent::Frame { id: id.to_string(), data }) {
            SocketAction::Emit(m) => events.push(m),
            _ => panic!("expected an identified event"),
        }
    }
    assert_eq!(events.len(), 2);
    assert_eq!(events[0].instrument.base.as_str(), "eth");
    assert_eq!(events[0].data, "eth trade");
    assert_eq!(events[1].instrument.base.as_str(), "btc");
    assert_eq!(events[1].data, "btc trade");
    for e in events.iter() {
        assert_eq!(e.instrument.quote.as_str(), "usdt");
        assert_eq!(e.instrument.kind, PERP);
        assert_eq!(e.stream, StreamKind::Trades);
    }
}

#[test]
fn builder_accumulates_per_exchange() {
    let b = StreamBuilder::new()
        .subscribe(ExchangeId::Binance, vec![("BTC", "usdt", InstrumentKind::Spot, StreamKind::Trades)])
        .subscribe(ExchangeId::Ftx, vec![("eth", "usdt", InstrumentKind::Spot, StreamKind::Trades)])
        .subscribe(ExchangeId::Binance, vec![("eth", "USDT", InstrumentKind::Spot, StreamKind::Trades)]);
    assert_eq!(b.exchanges(), vec![ExchangeId::Binance, ExchangeId::Ftx]);
    let binance = b.subscriptions_for(ExchangeId::Binance);
    assert_eq!(binance.len(), 2);
    assert_eq!(binance[0].instrument.base.as_str(), "btc");
    assert_eq!(binance[1].instrument.base.as_str(), "eth");
    assert_eq!(binance[1].instrument.quote.as_str(), "usdt");
    assert_eq!(b.subscriptions_for(ExchangeId::Ftx).len(), 1);
    assert_eq!(b.subscriptions_for(ExchangeId::BinanceFutures).len(), 0);
    let sockets = b.sockets();
    assert_eq!(sockets.len(), 2);
    assert_eq!(sockets[0].exchange(), ExchangeId::Binance);
    assert_eq!(sockets[0].subscriptions().len(), 2);
    assert_eq!(sockets[1].exchange(), ExchangeId::Ftx);
    assert_eq!(sockets[1].state(), SocketState::Connecting);
}

#[test]
fn one_failed_handshake_leaves_the_other_streaming() {
    let b = StreamBuilder::new()
        .subscribe(ExchangeId::Binance, vec![("btc", "usdt", InstrumentKind::Spot, StreamKind::Trades)])
        .subscribe(ExchangeId::Ftx, vec![("eth", "usdt", InstrumentKind::Spot, StreamKind::Trades)]);
    let mut sockets = b.sockets();
    let mut outcomes = Vec::new();
    for (k, s) in sockets.iter_mut().enumerate() {
        s.step::<u32>(SocketEvent::Connected);
        let a = if k == 0 {
            s.step::<u32>(SocketEvent::SubscribeRejected("rejected".to_string()))
        } else {
            s.step::<u32>(SocketEvent::SubscribeAck)
        };
        let outcome = match a {
            SocketAction::Fail(e) => Err(e),
            _ => Ok(k),
        };
        outcomes.push((s.exchange(), outcome));
    }
    assert_eq!(sockets[0].state(), SocketState::Terminated);
    assert_eq!(sockets[1].state(), SocketState::Streaming);
    let (mut streams, failed) = settle(outcomes);
    assert_eq!(failed.len(), 1);
    assert_eq!(failed[0].0, ExchangeId::Binance);
    assert!(matches!(&failed[0].1, SocketError::Subscribe(m) if m == "rejected"));
    assert_eq!(streams.select(ExchangeId::Binance), None);
    assert_eq!(streams.select(ExchangeId::Ftx), Some(1));
    assert_eq!(streams.select(ExchangeId::Ftx), None);
    let ev = sockets[1].step(SocketEvent::Frame { id: "ftx|eth|usdt|spot|trades".to_string(), data: 3u32 });
    assert!(matches!(ev, SocketAction::Emit(m) if m.data == 3));
}

#[test]
fn streams_insert_select_join() {
    let mut s: Streams<&str> = Streams::new();
    assert_eq!(s.insert(ExchangeId::Ftx, "a"), None);
    assert_eq!(s.insert(ExchangeId::Binance, "b"), None);
    assert_eq!(s.insert(ExchangeId::Ftx, "c"), Some("a"));
    assert_eq!(s.select(ExchangeId::BinanceFutures), None);
    assert_eq!(s.select(ExchangeId::Binance), Some("b"));
    assert_eq!(s.join(), vec![(ExchangeId::Ftx, "c")]);
}

#[test]
fn joined_stream_keeps_each_exchange_in_order() {
    let mut j: JoinedStream<u32> = JoinedStream::new(3);
    assert_eq!(j.send(ExchangeId::Binance, 1), Ok(()));
    assert_eq!(j.send(ExchangeId::Ftx, 10), Ok(()));
    assert_eq!(j.send(ExchangeId::Binance, 2), Ok(()));
    assert_eq!(j.send(ExchangeId::Ftx, 11), Err(11));
    assert_eq!(j.len(), 3);
    assert_eq!(j.recv(), Some((ExchangeId::Binance, 1)));
    assert_eq!(j.send(ExchangeId::Ftx, 11), Ok(()));
    let mut got = Vec::new();
    while let Some(e) = j.recv() {
        got.push(e);
    }
    assert_eq!(
        got,
        vec![(ExchangeId::Ftx, 10), (ExchangeId::Binance, 2), (ExchangeId::Ftx, 11)]
    );
    assert_eq!(j.recv(), None);
}
