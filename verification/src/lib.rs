//! Verified core of a single-instrument market-data stream client.
//!
//! The library holds the logic of the client: the instrument catalog, the
//! outbound wire messages, the inbound frame decoder, the subscription
//! switch protocol, and the connection supervisor's state machine.  The
//! unverified shell around it performs the actual network I/O and feeds
//! every observed event through the functions here.

mod catalog;
mod decode;
mod proxy;
mod session;
mod wire;

pub use catalog::TradePair;
pub use catalog::TradePairInfo;
pub use catalog::trade_info;
pub use catalog::spec_ws_name;
pub use catalog::spec_show_name;
pub use catalog::spec_pair_name;
pub use wire::bytes_of;
pub use wire::WireDialect;
pub use wire::spec_dec_digits;
pub use wire::u64_to_dec;
pub use wire::spec_sub_msg;
pub use wire::spec_unsub_msg;
pub use wire::spec_pong_msg;
pub use wire::spec_probe_msg;
pub use wire::spec_notify_switching;
pub use wire::spec_notify_reconnecting;
pub use wire::spec_notify_starting;
pub use wire::sub_message;
pub use wire::unsub_message;
pub use wire::pong_message;
pub use wire::probe_message;
pub use wire::notify_switching;
pub use wire::notify_reconnecting;
pub use wire::notify_starting;
pub use decode::ApiMessage;
pub use decode::IDLE_TIMEOUT_SECS;
pub use decode::Price;
pub use decode::PriceModel;
pub use decode::Frame;
pub use decode::FrameModel;
pub use decode::ReadEvent;
pub use decode::ReadEventModel;
pub use decode::StepOutcome;
pub use decode::StepModel;
pub use decode::gunzip_of;
pub use decode::ping_value_of;
pub use decode::price_record_of;
pub use decode::spec_pong_reply;
pub use decode::spec_frame_outcome;
pub use decode::spec_text_outcome;
pub use decode::spec_read_step;
pub use decode::tick_for;
pub use decode::pong_reply;
pub use decode::read_step;
pub use decode::lemma_ping_answered;
pub use decode::lemma_tick_never_misattributed;
pub use decode::lemma_timeout_is_not_fatal;
pub use decode::lemma_only_transport_end_is_fatal;
pub use session::SwitchOutcome;
pub use session::SwitchModel;
pub use session::spec_switch;
pub use session::switch_step;
pub use session::lemma_switch_same_is_noop;
pub use session::lemma_switch_order;
pub use session::ConnState;
pub use session::ConnEvent;
pub use session::SupervisorStep;
pub use session::spec_supervisor;
pub use session::supervisor_step;
pub use session::lemma_link_end_leads_to_reconnect;
pub use session::lemma_connect_failure_retries;
pub use proxy::ProxyScheme;
pub use proxy::ProxyConfig;
pub use proxy::ProxyConfigModel;
pub use proxy::ProxyParseError;
pub use proxy::find_byte;
pub use proxy::find_byte_at;
pub use proxy::has_prefix;
pub use proxy::all_digits;
pub use proxy::dec_value;
pub use proxy::spec_is_port;
pub use proxy::spec_port_value;
pub use proxy::parse_port;
pub use proxy::spec_parse_hostport;
pub use proxy::spec_parse_proxy;
pub use proxy::spec_parse_authority;
pub use proxy::spec_proxy_error;
pub use proxy::spec_authority_error;
pub use proxy::parse_proxy;
pub use proxy::TunnelPlan;
pub use proxy::plan_tunnel;
pub use proxy::spec_connect_request;
pub use proxy::connect_request;
pub use proxy::spec_connect_granted;
pub use proxy::connect_granted;
