use pricefeed::{
    read_step, switch_step, trade_info, Frame, ReadEvent, TradePair, WireDialect,
};
use std::io::Write;

fn gzip(data: &[u8]) -> Vec<u8> {
    let mut enc = flate2::write::GzEncoder::new(Vec::new(), flate2::Compression::default());
    enc.write_all(data).expect("compress");
    enc.finish().expect("finish")
}

fn active_key(p: TradePair) -> Vec<u8> {
    trade_info(p).pair_name
}

#[test]
fn compressed_ping_is_answered_with_one_pong() {
    let key = active_key(TradePair::BTCUSDT);
    let frame = Frame::Binary(gzip(br#"{"ping": 123456}"#));
    let r = read_step(ReadEvent::Got(frame), &key);
    assert_eq!(r.send, Some(br#"{"pong":123456}"#.to_vec()));
    assert!(r.deliver.is_none());
    assert!(!r.end);
}

#[test]
fn compressed_price_record_is_decoded_as_text() {
    let key = active_key(TradePair::BTCUSDT);
    let payload = br#"{"ch":"market.BTC-USDT.detail","ts":1700000000,"tick":{"close":65432.1}}"#;
    let r = read_step(ReadEvent::Got(Frame::Binary(gzip(payload))), &key);
    assert!(r.send.is_none());
    let tick = r.deliver.expect("tick delivered");
    assert_eq!(tick.name, b"market.BTC-USDT.detail".to_vec());
    assert_eq!(tick.tag_price, b"65432.1".to_vec());
    assert!(!r.end);
}

#[test]
fn text_price_record_for_the_active_instrument_is_delivered() {
    let key = active_key(TradePair::ETHUSDT);
    let payload = br#"{"ch":"market.ETH-USDT.detail","tick":{"close":3210.5,"open":1.0}}"#.to_vec();
    let r = read_step(ReadEvent::Got(Frame::Text(payload)), &key);
    let tick = r.deliver.expect("tick delivered");
    assert_eq!(tick.name, b"market.ETH-USDT.detail".to_vec());
    assert_eq!(tick.tag_price, b"3210.5".to_vec());
    assert!(r.send.is_none());
    assert!(!r.end);
}

#[test]
fn price_record_for_another_instrument_is_dropped() {
    let key = active_key(TradePair::BTCUSDT);
    let payload = br#"{"ch":"market.ETH-USDT.detail","tick":{"close":3210.5}}"#.to_vec();
    let r = read_step(ReadEvent::Got(Frame::Text(payload)), &key);
    assert!(r.deliver.is_none());
    assert!(r.send.is_none());
    assert!(!r.end);
}

#[test]
fn unparseable_text_is_dropped_and_the_loop_continues() {
    let key = active_key(TradePair::BTCUSDT);
    let r = read_step(ReadEvent::Got(Frame::Text(b"not json at all".to_vec())), &key);
    assert!(r.deliver.is_none());
    assert!(r.send.is_none());
    assert!(!r.end);

    let envelope = br#"{"id":1,"result":"ok"}"#.to_vec();
    let r = read_step(ReadEvent::Got(Frame::Text(envelope)), &key);
    assert!(r.deliver.is_none());
    assert!(!r.end);
}

#[test]
fn undecompressable_binary_is_dropped() {
    let key = active_key(TradePair::BTCUSDT);
    let r = read_step(ReadEvent::Got(Frame::Binary(b"\x1f\x8b broken".to_vec())), &key);
    assert!(r.send.is_none());
    assert!(r.deliver.is_none());
    assert!(!r.end);
}

#[test]
fn native_ping_gets_a_pong_with_the_same_payload() {
    let key = active_key(TradePair::BTCUSDT);
    let payload = 123456u64.to_le_bytes().to_vec();
    let r = read_step(ReadEvent::Got(Frame::Ping(payload)), &key);
    assert_eq!(r.send, Some(br#"{"pong":123456}"#.to_vec()));
    assert!(!r.end);

    let short = read_step(ReadEvent::Got(Frame::Ping(b"abc".to_vec())), &key);
    assert!(short.send.is_none());
    assert!(!short.end);
}

#[test]
fn timeout_sends_the_probe_and_keeps_reading() {
    let key = active_key(TradePair::BTCUSDT);
    let r = read_step(ReadEvent::Timeout, &key);
    assert_eq!(r.send, Some(b"haha".to_vec()));
    assert!(r.deliver.is_none());
    assert!(!r.end);
}

#[test]
fn only_transport_end_is_fatal() {
    let key = active_key(TradePair::BTCUSDT);
    assert!(read_step(ReadEvent::Got(Frame::Close), &key).end);
    assert!(read_step(ReadEvent::Ended, &key).end);
    assert!(read_step(ReadEvent::Failed, &key).end);
    assert!(!read_step(ReadEvent::Got(Frame::Pong(vec![1, 2])), &key).end);
}

#[test]
fn end_to_end_switch_scenario() {
    // Start subscribed to A = BTC.
    let mut key = active_key(TradePair::BTCUSDT);

    // A valid tick for A: exactly one delivery.
    let tick_a = br#"{"ch":"market.BTC-USDT.detail","tick":{"close":100.5}}"#.to_vec();
    let r = read_step(ReadEvent::Got(Frame::Text(tick_a.clone())), &key);
    let tick = r.deliver.expect("tick for the active instrument");
    assert_eq!(tick.name, b"market.BTC-USDT.detail".to_vec());

    // Switch to B = ETH: unsubscribe(A) then subscribe(B) on the wire.
    let sw = switch_step(WireDialect::SubUnsub, TradePair::BTCUSDT, TradePair::ETHUSDT);
    assert_eq!(
        sw.to_send,
        vec![
            br#"{"unsub":"market.BTC-USDT.detail","id":"1"}"#.to_vec(),
            br#"{"sub":"market.ETH-USDT.detail","id":"1"}"#.to_vec(),
        ]
    );
    key = active_key(sw.active);

    // The next valid tick for B is delivered.
    let tick_b = br#"{"ch":"market.ETH-USDT.detail","tick":{"close":200.25}}"#.to_vec();
    let r = read_step(ReadEvent::Got(Frame::Text(tick_b)), &key);
    assert_eq!(
        r.deliver.expect("tick for B").tag_price,
        b"200.25".to_vec()
    );

    // A late tick for A is filtered out.
    let late = read_step(ReadEvent::Got(Frame::Text(tick_a)), &key);
    assert!(late.deliver.is_none());
}
