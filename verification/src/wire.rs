//! Outbound wire payloads.
//!
//! Every payload that the client ever sends is built here: the subscribe
//! and unsubscribe control messages, the keepalive reply, the idle probe,
//! and the status notifications shown to the user.  All payloads are UTF-8
//! bytes; the unverified shell turns them into text frames unchanged.

use vstd::prelude::*;
use vstd::string::StringSliceAdditionalSpecFns;
use crate::catalog::TradePair;
use crate::catalog::spec_ws_name;
use crate::catalog::trade_info;

verus! {

/// The UTF-8 bytes of a string slice, as a fresh vector.
pub fn bytes_of(s: &str) -> (r: Vec<u8>)
    ensures
        r@ == s.spec_bytes(),
{
    vstd::slice::slice_to_vec(s.as_bytes())
}

/// The decimal digits of `n`, most significant first, without a sign and
/// without leading zeroes (a single `0` for zero).
pub open spec fn spec_dec_digits(n: nat) -> Seq<u8>
    decreases n,
{
    if n < 10 {
        seq![(48 + n) as u8]
    } else {
        spec_dec_digits(n / 10).push((48 + n % 10) as u8)
    }
}

fn push_dec_digits(n: u64, out: &mut Vec<u8>)
    ensures
        final(out)@ == old(out)@ + spec_dec_digits(n as nat),
    decreases n,
{
    if n < 10 {
        out.push(48 + n as u8);
        assert(out@ =~= old(out)@ + spec_dec_digits(n as nat));
    } else {
        push_dec_digits(n / 10, out);
        out.push(48 + (n % 10) as u8);
        assert(out@ =~= old(out)@ + spec_dec_digits(n as nat));
    }
}

/// The decimal text of `n`.
pub fn u64_to_dec(n: u64) -> (r: Vec<u8>)
    ensures
        r@ == spec_dec_digits(n as nat),
{
    let mut out: Vec<u8> = Vec::new();
    push_dec_digits(n, &mut out);
    out
}

/// The shape of the subscribe and unsubscribe control payloads.  The
/// feed's dialect is a configuration choice of the client, not a
/// constant: one dialect writes `{"sub":"<name>","id":"1"}`, the other
/// `{"method":"SUBSCRIBE","params":["<name>"],"id":1}`.
#[derive(Clone, Copy, PartialEq, Eq, Structural, Debug)]
pub enum WireDialect {
    /// `{"sub":...}` / `{"unsub":...}` payloads.
    SubUnsub,
    /// `{"method":"SUBSCRIBE",...}` / `{"method":"UNSUBSCRIBE",...}` payloads.
    MethodParams,
}

/// The subscribe payload for a wire subscription name.
pub open spec fn spec_sub_msg(d: WireDialect, name: Seq<u8>) -> Seq<u8> {
    match d {
        WireDialect::SubUnsub => ("{\"sub\":\"").spec_bytes() + name + (
        "\",\"id\":\"1\"}").spec_bytes(),
        WireDialect::MethodParams => ("{\"method\":\"SUBSCRIBE\",\"params\":[\"").spec_bytes()
            + name + ("\"],\"id\":1}").spec_bytes(),
    }
}

/// The unsubscribe payload for a wire subscription name.
pub open spec fn spec_unsub_msg(d: WireDialect, name: Seq<u8>) -> Seq<u8> {
    match d {
        WireDialect::SubUnsub => ("{\"unsub\":\"").spec_bytes() + name + (
        "\",\"id\":\"1\"}").spec_bytes(),
        WireDialect::MethodParams => ("{\"method\":\"UNSUBSCRIBE\",\"params\":[\"").spec_bytes()
            + name + ("\"],\"id\":1}").spec_bytes(),
    }
}

/// The keepalive reply for a ping carrying `n`.
pub open spec fn spec_pong_msg(n: u64) -> Seq<u8> {
    ("{\"pong\":").spec_bytes() + spec_dec_digits(n as nat) + ("}").spec_bytes()
}

/// The harmless payload sent on an idle timeout to provoke a heartbeat.
pub open spec fn spec_probe_msg() -> Seq<u8> {
    ("haha").spec_bytes()
}

/// The notification shown while an instrument switch is in progress.
pub open spec fn spec_notify_switching() -> Seq<u8> {
    ("switching...").spec_bytes()
}

/// The notification shown when a connection attempt is restarted.
pub open spec fn spec_notify_reconnecting() -> Seq<u8> {
    ("reconnecting...").spec_bytes()
}

/// The notification shown once at client startup.
pub open spec fn spec_notify_starting() -> Seq<u8> {
    ("starting...").spec_bytes()
}

fn framed_name(head: &str, p: TradePair, tail: &str) -> (r: Vec<u8>)
    ensures
        r@ == head.spec_bytes() + spec_ws_name(p) + tail.spec_bytes(),
{
    let mut r = bytes_of(head);
    let info = trade_info(p);
    let mut name = info.ws_name;
    r.append(&mut name);
    let mut end = bytes_of(tail);
    r.append(&mut end);
    assert(r@ =~= head.spec_bytes() + spec_ws_name(p) + tail.spec_bytes());
    r
}

/// Builds the subscribe control message for a pair.
pub fn sub_message(d: WireDialect, p: TradePair) -> (r: Vec<u8>)
    ensures
        r@ == spec_sub_msg(d, spec_ws_name(p)),
{
    match d {
        WireDialect::SubUnsub => framed_name("{\"sub\":\"", p, "\",\"id\":\"1\"}"),
        WireDialect::MethodParams => framed_name(
            "{\"method\":\"SUBSCRIBE\",\"params\":[\"",
            p,
            "\"],\"id\":1}",
        ),
    }
}

/// Builds the unsubscribe control message for a pair.
pub fn unsub_message(d: WireDialect, p: TradePair) -> (r: Vec<u8>)
    ensures
        r@ == spec_unsub_msg(d, spec_ws_name(p)),
{
    match d {
        WireDialect::SubUnsub => framed_name("{\"unsub\":\"", p, "\",\"id\":\"1\"}"),
        WireDialect::MethodParams => framed_name(
            "{\"method\":\"UNSUBSCRIBE\",\"params\":[\"",
            p,
            "\"],\"id\":1}",
        ),
    }
}

/// Builds the keepalive reply carrying `n`.
pub fn pong_message(n: u64) -> (r: Vec<u8>)
    ensures
        r@ == spec_pong_msg(n),
{
    let mut r = bytes_of("{\"pong\":");
    let mut digits = u64_to_dec(n);
    r.append(&mut digits);
    let mut tail = bytes_of("}");
    r.append(&mut tail);
    assert(r@ =~= spec_pong_msg(n));
    r
}

/// Builds the idle probe payload.
pub fn probe_message() -> (r: Vec<u8>)
    ensures
        r@ == spec_probe_msg(),
{
    bytes_of("haha")
}

/// Builds the switch-in-progress notification text.
pub fn notify_switching() -> (r: Vec<u8>)
    ensures
        r@ == spec_notify_switching(),
{
    bytes_of("switching...")
}

/// Builds the reconnect notification text.
pub fn notify_reconnecting() -> (r: Vec<u8>)
    ensures
        r@ == spec_notify_reconnecting(),
{
    bytes_of("reconnecting...")
}

/// Builds the startup notification text.
pub fn notify_starting() -> (r: Vec<u8>)
    ensures
        r@ == spec_notify_starting(),
{
    bytes_of("starting...")
}

} // verus!
