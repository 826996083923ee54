//! The inbound frame decoder.
//!
//! Each frame read from the transport is classified into at most one tick
//! to deliver, at most one payload to send back, and a verdict on whether
//! the read loop ends.  The feed sends three shapes: plain text JSON,
//! gzip-compressed binary JSON, and a keepalive envelope `{"ping": n}`
//! inside the compressed form; a native ping frame is answered as well.
//!
//! Policy for undecodable input, chosen once and applied throughout: a
//! text payload that is not a price record (the feed's id/result reply
//! envelopes among them), and a binary frame that does not decompress,
//! are dropped and the loop continues; only a close frame,
//! the end of the stream, or a transport error ends the loop.  A price
//! record whose match key is not the active instrument's is dropped, so a
//! tick is never attributed to an instrument that did not ask for it.

use vstd::prelude::*;
use vstd::bytes::spec_u64_from_le_bytes;
use vstd::bytes::u64_from_le_bytes;
use crate::wire::{spec_pong_msg, spec_probe_msg, pong_message, probe_message};

verus! {

/// The idle timeout of the read loop, in seconds: how long the inbound
/// stream may stay silent before the probe payload is sent.
pub const IDLE_TIMEOUT_SECS: u64 = 10;

/// One decoded price update, ready for delivery to the user interface.
///
/// `tag_price` holds the decimal text of the price exactly as the feed's
/// JSON carried it; the user interface decides how to render it.
#[derive(Debug)]
pub struct Price {
    /// The match key the record arrived under.
    pub name: Vec<u8>,
    /// The price, as decimal text.
    pub tag_price: Vec<u8>,
}

/// The mathematical shadow of [`Price`].
pub struct PriceModel {
    pub name: Seq<u8>,
    pub tag_price: Seq<u8>,
}

impl View for Price {
    type V = PriceModel;

    open spec fn view(&self) -> PriceModel {
        PriceModel { name: self.name@, tag_price: self.tag_price@ }
    }
}

/// One event delivered to the user interface: a decoded tick, or a
/// textual status notification.
#[derive(Debug)]
pub enum ApiMessage {
    Price(Price),
    Notify(Vec<u8>),
}

/// One inbound frame, as the transport hands it over.
#[derive(Debug)]
pub enum Frame {
    Text(Vec<u8>),
    Binary(Vec<u8>),
    Ping(Vec<u8>),
    Pong(Vec<u8>),
    Close,
}

/// The mathematical shadow of [`Frame`].
pub enum FrameModel {
    Text(Seq<u8>),
    Binary(Seq<u8>),
    Ping(Seq<u8>),
    Pong(Seq<u8>),
    Close,
}

impl View for Frame {
    type V = FrameModel;

    open spec fn view(&self) -> FrameModel {
        match self {
            Frame::Text(p) => FrameModel::Text(p@),
            Frame::Binary(p) => FrameModel::Binary(p@),
            Frame::Ping(p) => FrameModel::Ping(p@),
            Frame::Pong(p) => FrameModel::Pong(p@),
            Frame::Close => FrameModel::Close,
        }
    }
}

/// One observation made by the read loop.
#[derive(Debug)]
pub enum ReadEvent {
    /// A frame arrived.
    Got(Frame),
    /// Nothing arrived within the idle timeout.
    Timeout,
    /// The stream ended gracefully.
    Ended,
    /// The transport reported a read error.
    Failed,
}

/// The mathematical shadow of [`ReadEvent`].
pub enum ReadEventModel {
    Got(FrameModel),
    Timeout,
    Ended,
    Failed,
}

impl View for ReadEvent {
    type V = ReadEventModel;

    open spec fn view(&self) -> ReadEventModel {
        match self {
            ReadEvent::Got(f) => ReadEventModel::Got(f@),
            ReadEvent::Timeout => ReadEventModel::Timeout,
            ReadEvent::Ended => ReadEventModel::Ended,
            ReadEvent::Failed => ReadEventModel::Failed,
        }
    }
}

/// What the read loop must do after one observation.
#[derive(Debug)]
pub struct StepOutcome {
    /// Payload to enqueue on the outbound writer, if any.
    pub send: Option<Vec<u8>>,
    /// Tick to deliver to the user interface, if any.
    pub deliver: Option<Price>,
    /// Whether the read loop ends, tearing this connection down.
    pub end: bool,
}

/// The mathematical shadow of [`StepOutcome`].
pub struct StepModel {
    pub send: Option<Seq<u8>>,
    pub deliver: Option<PriceModel>,
    pub end: bool,
}

impl View for StepOutcome {
    type V = StepModel;

    open spec fn view(&self) -> StepModel {
        StepModel {
            send: match self.send {
                Some(v) => Some(v@),
                None => None,
            },
            deliver: match self.deliver {
                Some(p) => Some(p@),
                None => None,
            },
            end: self.end,
        }
    }
}

/// What gzip decompression yields on `b`: the decompressed bytes, or
/// nothing when `b` is not a complete gzip stream.
pub uninterp spec fn gunzip_of(b: Seq<u8>) -> Option<Seq<u8>>;

/// Relies on flate2's `read::GzDecoder` driven by std's `Read::read_to_end`:
/// the decompressed bytes are a function of the compressed input alone, and
/// an input that is not a complete gzip stream fails with an error.
#[verifier::external_body]
fn gunzip(b: &Vec<u8>) -> (r: Option<Vec<u8>>)
    ensures
        match r {
            Some(v) => gunzip_of(b@) == Some(v@),
            None => gunzip_of(b@) == None::<Seq<u8>>,
        },
{
    let mut decoder = flate2::read::GzDecoder::new(&b[..]);
    let mut out: Vec<u8> = Vec::new();
    match std::io::Read::read_to_end(&mut decoder, &mut out) {
        Ok(_) => Some(out),
        Err(_) => None,
    }
}

/// The value of the `"ping"` member, when `b` is a JSON document whose
/// `"ping"` member holds an unsigned 64-bit integer.
pub uninterp spec fn ping_value_of(b: Seq<u8>) -> Option<u64>;

/// Relies on `serde_json::from_slice` and `serde_json::Value::{get, as_u64}`:
/// parses the payload as JSON and reads its `"ping"` member.
#[verifier::external_body]
fn parse_ping(b: &Vec<u8>) -> (r: Option<u64>)
    ensures
        r == ping_value_of(b@),
{
    match serde_json::from_slice::<serde_json::Value>(b.as_slice()) {
        Ok(v) => match v.get("ping") {
            Some(p) => p.as_u64(),
            None => None,
        },
        Err(_) => None,
    }
}

/// The price record inside `b`, when `b` is a JSON document with a string
/// member `"ch"` (the match key) and a number member `"close"` inside the
/// object member `"tick"`: the pair of the match key's bytes and the
/// price's decimal text.
pub uninterp spec fn price_record_of(b: Seq<u8>) -> Option<(Seq<u8>, Seq<u8>)>;

/// Relies on `serde_json::from_slice`, `serde_json::Value::{get, as_str,
/// is_number}` and the display form of `serde_json::Number`: parses the
/// payload as JSON and reads its `"ch"` and `"tick"."close"` members.
#[verifier::external_body]
fn parse_price_record(b: &Vec<u8>) -> (r: Option<(Vec<u8>, Vec<u8>)>)
    ensures
        match r {
            Some(p) => price_record_of(b@) == Some((p.0@, p.1@)),
            None => price_record_of(b@) == None::<(Seq<u8>, Seq<u8>)>,
        },
{
    let v = match serde_json::from_slice::<serde_json::Value>(b.as_slice()) {
        Ok(v) => v,
        Err(_) => return None,
    };
    let ch = match v.get("ch").and_then(|c| c.as_str()) {
        Some(s) => s,
        None => return None,
    };
    let close = match v.get("tick").and_then(|t| t.get("close")) {
        Some(c) if c.is_number() => c,
        _ => return None,
    };
    Some((ch.as_bytes().to_vec(), close.to_string().into_bytes()))
}

/// The reply owed to a native ping frame with payload `p`: the keepalive
/// reply carrying the little-endian value of the payload's first eight
/// bytes, or nothing when the payload is shorter than that.
pub open spec fn spec_pong_reply(p: Seq<u8>) -> Option<Seq<u8>> {
    if p.len() >= 8 {
        Some(spec_pong_msg(spec_u64_from_le_bytes(p.subrange(0, 8))))
    } else {
        None
    }
}

/// What one frame demands, given the active instrument's match key.
pub open spec fn spec_frame_outcome(f: FrameModel, key: Seq<u8>) -> StepModel {
    match f {
        FrameModel::Text(t) => spec_text_outcome(t, key),
        FrameModel::Binary(b) => match gunzip_of(b) {
            Some(d) => match ping_value_of(d) {
                Some(n) => StepModel { send: Some(spec_pong_msg(n)), deliver: None, end: false },
                None => spec_text_outcome(d, key),
            },
            None => StepModel { send: None, deliver: None, end: false },
        },
        FrameModel::Ping(p) => StepModel { send: spec_pong_reply(p), deliver: None, end: false },
        FrameModel::Pong(_) => StepModel { send: None, deliver: None, end: false },
        FrameModel::Close => StepModel { send: None, deliver: None, end: true },
    }
}

/// What a text payload demands: the tick it carries when it is a price
/// record for the active instrument, nothing otherwise.
pub open spec fn spec_text_outcome(t: Seq<u8>, key: Seq<u8>) -> StepModel {
    match price_record_of(t) {
        Some(rec) => if rec.0 == key {
            StepModel {
                send: None,
                deliver: Some(PriceModel { name: rec.0, tag_price: rec.1 }),
                end: false,
            }
        } else {
            StepModel { send: None, deliver: None, end: false }
        },
        None => StepModel { send: None, deliver: None, end: false },
    }
}

/// What one observation of the inbound stream demands.
pub open spec fn spec_read_step(ev: ReadEventModel, key: Seq<u8>) -> StepModel {
    match ev {
        ReadEventModel::Got(f) => spec_frame_outcome(f, key),
        ReadEventModel::Timeout => StepModel {
            send: Some(spec_probe_msg()),
            deliver: None,
            end: false,
        },
        ReadEventModel::Ended => StepModel { send: None, deliver: None, end: true },
        ReadEventModel::Failed => StepModel { send: None, deliver: None, end: true },
    }
}

/// Turns a parsed price record into the tick to deliver: the record's
/// fields when its match key equals the active instrument's, nothing
/// otherwise.
pub fn tick_for(rec: Option<(Vec<u8>, Vec<u8>)>, active_key: &Vec<u8>) -> (r: Option<Price>)
    ensures
        match rec {
            Some(p) => if p.0@ == active_key@ {
                r matches Some(t) && t@ == (PriceModel { name: p.0@, tag_price: p.1@ })
            } else {
                r is None
            },
            None => r is None,
        },
{
    match rec {
        Some(p) => {
            if p.0 == *active_key {
                assert(p.0@ == active_key@);
                Some(Price { name: p.0, tag_price: p.1 })
            } else {
                assert(p.0@ != active_key@);
                None
            }
        },
        None => None,
    }
}

/// The reply owed to a native ping frame, executable form.
pub fn pong_reply(p: &Vec<u8>) -> (r: Option<Vec<u8>>)
    ensures
        match r {
            Some(v) => spec_pong_reply(p@) == Some(v@),
            None => spec_pong_reply(p@) == None::<Seq<u8>>,
        },
{
    if p.len() >= 8 {
        let head = vstd::slice::slice_subrange(p.as_slice(), 0, 8);
        let n = u64_from_le_bytes(head);
        Some(pong_message(n))
    } else {
        None
    }
}

fn text_step(t: Vec<u8>, active_key: &Vec<u8>) -> (r: StepOutcome)
    ensures
        r@ == spec_text_outcome(t@, active_key@),
{
    let rec = parse_price_record(&t);
    let deliver = tick_for(rec, active_key);
    StepOutcome { send: None, deliver, end: false }
}

/// Decodes one observation of the inbound stream into what the loop must
/// do: the payload to send back, the tick to deliver, and whether the
/// loop ends.
pub fn read_step(ev: ReadEvent, active_key: &Vec<u8>) -> (r: StepOutcome)
    ensures
        r@ == spec_read_step(ev@, active_key@),
{
    match ev {
        ReadEvent::Got(f) => match f {
            Frame::Text(t) => text_step(t, active_key),
            Frame::Binary(b) => match gunzip(&b) {
                Some(d) => match parse_ping(&d) {
                    Some(n) => StepOutcome {
                        send: Some(pong_message(n)),
                        deliver: None,
                        end: false,
                    },
                    None => text_step(d, active_key),
                },
                None => StepOutcome { send: None, deliver: None, end: false },
            },
            Frame::Ping(p) => StepOutcome { send: pong_reply(&p), deliver: None, end: false },
            Frame::Pong(_) => StepOutcome { send: None, deliver: None, end: false },
            Frame::Close => StepOutcome { send: None, deliver: None, end: true },
        },
        ReadEvent::Timeout => StepOutcome {
            send: Some(probe_message()),
            deliver: None,
            end: false,
        },
        ReadEvent::Ended => StepOutcome { send: None, deliver: None, end: true },
        ReadEvent::Failed => StepOutcome { send: None, deliver: None, end: true },
    }
}

/// Law: a compressed keepalive envelope is answered with exactly one reply
/// carrying the same value, nothing is delivered, and the loop keeps
/// reading.
pub proof fn lemma_ping_answered(b: Seq<u8>, d: Seq<u8>, n: u64, key: Seq<u8>)
    requires
        gunzip_of(b) == Some(d),
        ping_value_of(d) == Some(n),
    ensures
        spec_read_step(ReadEventModel::Got(FrameModel::Binary(b)), key) == (StepModel {
            send: Some(spec_pong_msg(n)),
            deliver: None,
            end: false,
        }),
{
}

/// Law: a delivered tick always carries the active instrument's match key
/// and the price text of the record it came from: a record for another
/// instrument is dropped, never misattributed.
pub proof fn lemma_tick_never_misattributed(ev: ReadEventModel, key: Seq<u8>)
    ensures
        spec_read_step(ev, key).deliver matches Some(t) ==> t.name == key,
{
}

/// Law: an idle timeout never ends the read loop: the configured probe is
/// sent and the loop keeps waiting.
pub proof fn lemma_timeout_is_not_fatal(key: Seq<u8>)
    ensures
        spec_read_step(ReadEventModel::Timeout, key).end == false,
        spec_read_step(ReadEventModel::Timeout, key).send == Some(spec_probe_msg()),
        spec_read_step(ReadEventModel::Timeout, key).deliver is None,
{
}

/// Law: only a close frame, the end of the stream, or a transport error
/// ends the read loop; every other observation keeps it running.
pub proof fn lemma_only_transport_end_is_fatal(ev: ReadEventModel, key: Seq<u8>)
    ensures
        spec_read_step(ev, key).end <==> (ev == ReadEventModel::Got(FrameModel::Close)
            || ev == ReadEventModel::Ended || ev == ReadEventModel::Failed),
{
}

} // verus!
