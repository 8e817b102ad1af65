//! Fully-specified runtime options consumed by the connection layer, and the
//! named default constants substituted during materialization.

use vstd::prelude::*;

verus! {

/// Default idle timeout for TCP connections, in seconds.
pub const TCP_TIMEOUT: u64 = 300;

/// Default idle timeout for UDP associations, in seconds.
pub const UDP_TIMEOUT: u64 = 30;

/// Default proxy-protocol version, used when sending the header is enabled
/// but no version was configured.
pub const PROXY_PROTOCOL_VERSION: usize = 2;

/// Proxy-protocol settings, widened to integers for the connection layer:
/// the inbound path counts proxy-header occurrences rather than treating
/// acceptance as a pure boolean.
#[derive(Clone, Copy, Debug)]
pub struct HaproxyOpts {
    /// `0` when sending the proxy-protocol header is disabled; otherwise the
    /// protocol version to emit on outbound connections.
    pub send_proxy: usize,
    /// `1` when inbound connections are expected to carry a proxy-protocol
    /// header, else `0`.
    pub accept_proxy: usize,
}

/// Fully-specified connection options: every field holds a concrete value,
/// with all defaults applied.
#[derive(Clone, Debug)]
pub struct ConnectOpts {
    pub use_udp: bool,
    pub fast_open: bool,
    pub zero_copy: bool,
    pub tcp_timeout: u64,
    pub udp_timeout: u64,
    /// Local address to bind outbound connections to, in text form.
    /// Reserved for a later configuration stage: materialization always
    /// leaves it unset.
    pub send_through: Option<String>,
    pub haproxy_opts: HaproxyOpts,
}

} // verus!
