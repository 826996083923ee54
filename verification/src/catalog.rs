//! The closed catalog of tradable instruments.
//!
//! Each entry carries a wire subscription name (used in subscribe and
//! unsubscribe payloads), a display name for the user interface, and a
//! match key used to correlate an inbound tick with the instrument that
//! requested it.  The catalog is an immutable value: callers obtain a
//! fresh copy of an entry from [`trade_info`].

use vstd::prelude::*;
use vstd::string::StringSliceAdditionalSpecFns;
use crate::wire::bytes_of;

verus! {

/// One tradable pair from the fixed catalog.
#[derive(Clone, Copy, PartialEq, Eq, Structural, Debug, Hash)]
pub enum TradePair {
    BTCUSDT,
    ETHUSDT,
    SOLUSDT,
}

/// The metadata of one catalog entry, all fields as UTF-8 bytes.
#[derive(Debug)]
pub struct TradePairInfo {
    /// Name used to build subscribe/unsubscribe payloads.
    pub ws_name: Vec<u8>,
    /// Human-readable display name.
    pub show_name: Vec<u8>,
    /// Match key of inbound ticks for this pair.
    pub pair_name: Vec<u8>,
}

/// The wire subscription name of a pair.
pub open spec fn spec_ws_name(p: TradePair) -> Seq<u8> {
    match p {
        TradePair::BTCUSDT => ("market.BTC-USDT.detail").spec_bytes(),
        TradePair::ETHUSDT => ("market.ETH-USDT.detail").spec_bytes(),
        TradePair::SOLUSDT => ("market.SOL-USDT.detail").spec_bytes(),
    }
}

/// The display name of a pair.
pub open spec fn spec_show_name(p: TradePair) -> Seq<u8> {
    match p {
        TradePair::BTCUSDT => ("BTC/USDT").spec_bytes(),
        TradePair::ETHUSDT => ("ETH/USDT").spec_bytes(),
        TradePair::SOLUSDT => ("SOL/USDT").spec_bytes(),
    }
}

/// The match key of a pair; in this feed it equals the subscription name.
pub open spec fn spec_pair_name(p: TradePair) -> Seq<u8> {
    spec_ws_name(p)
}

/// The catalog entry of one pair.
pub fn trade_info(p: TradePair) -> (r: TradePairInfo)
    ensures
        r.ws_name@ == spec_ws_name(p),
        r.show_name@ == spec_show_name(p),
        r.pair_name@ == spec_pair_name(p),
{
    match p {
        TradePair::BTCUSDT => TradePairInfo {
            ws_name: bytes_of("market.BTC-USDT.detail"),
            show_name: bytes_of("BTC/USDT"),
            pair_name: bytes_of("market.BTC-USDT.detail"),
        },
        TradePair::ETHUSDT => TradePairInfo {
            ws_name: bytes_of("market.ETH-USDT.detail"),
            show_name: bytes_of("ETH/USDT"),
            pair_name: bytes_of("market.ETH-USDT.detail"),
        },
        TradePair::SOLUSDT => TradePairInfo {
            ws_name: bytes_of("market.SOL-USDT.detail"),
            show_name: bytes_of("SOL/USDT"),
            pair_name: bytes_of("market.SOL-USDT.detail"),
        },
    }
}

} // verus!
