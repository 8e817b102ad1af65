//! The network overlay config: one optional field per tunable, two merge
//! precedence rules, and materialization into [`crate::opts::ConnectOpts`].

use vstd::prelude::*;
use crate::opts::{ConnectOpts, HaproxyOpts, PROXY_PROTOCOL_VERSION, TCP_TIMEOUT, UDP_TIMEOUT};

verus! {

/// Partially-specified network configuration. Every field is independently
/// nullable: "unset" is distinguishable from any concrete value, including
/// `false` and `0`. No cross-field validation is enforced at this layer.
#[derive(Clone, Copy, Debug, PartialEq, Eq)]
pub struct NetConf {
    pub use_udp: Option<bool>,
    pub fast_open: Option<bool>,
    pub zero_copy: Option<bool>,
    pub send_proxy: Option<bool>,
    pub accept_proxy: Option<bool>,
    pub send_proxy_version: Option<usize>,
    pub tcp_timeout: Option<u64>,
    pub udp_timeout: Option<u64>,
}

/// Fill-missing rule on one field: the left value wins when set; a gap is
/// filled from the right.
pub open spec fn take_opt<T>(a: Option<T>, b: Option<T>) -> Option<T> {
    if a is Some {
        a
    } else {
        b
    }
}

/// Force-overwrite rule on one field: the right value wins when set; the
/// left value is kept only where the right is unset.
pub open spec fn rst_opt<T>(a: Option<T>, b: Option<T>) -> Option<T> {
    if b is Some {
        b
    } else {
        a
    }
}

/// Field-by-field fill-missing merge of two configs.
pub open spec fn spec_take(a: NetConf, b: NetConf) -> NetConf {
    NetConf {
        use_udp: take_opt(a.use_udp, b.use_udp),
        fast_open: take_opt(a.fast_open, b.fast_open),
        zero_copy: take_opt(a.zero_copy, b.zero_copy),
        send_proxy: take_opt(a.send_proxy, b.send_proxy),
        accept_proxy: take_opt(a.accept_proxy, b.accept_proxy),
        send_proxy_version: take_opt(a.send_proxy_version, b.send_proxy_version),
        tcp_timeout: take_opt(a.tcp_timeout, b.tcp_timeout),
        udp_timeout: take_opt(a.udp_timeout, b.udp_timeout),
    }
}

/// Field-by-field force-overwrite merge of two configs.
pub open spec fn spec_rst(a: NetConf, b: NetConf) -> NetConf {
    NetConf {
        use_udp: rst_opt(a.use_udp, b.use_udp),
        fast_open: rst_opt(a.fast_open, b.fast_open),
        zero_copy: rst_opt(a.zero_copy, b.zero_copy),
        send_proxy: rst_opt(a.send_proxy, b.send_proxy),
        accept_proxy: rst_opt(a.accept_proxy, b.accept_proxy),
        send_proxy_version: rst_opt(a.send_proxy_version, b.send_proxy_version),
        tcp_timeout: rst_opt(a.tcp_timeout, b.tcp_timeout),
        udp_timeout: rst_opt(a.udp_timeout, b.udp_timeout),
    }
}

/// An optional value, or a default where unset.
pub open spec fn opt_or<T>(o: Option<T>, d: T) -> T {
    match o {
        Some(v) => v,
        None => d,
    }
}

/// Materialization of a config: booleans default to `false`, timeouts to the
/// named constants; `accept_proxy` is widened to the integer flag `1`/`0`;
/// the outbound proxy-protocol version is `0` unless sending is enabled, in
/// which case it is the configured version or the default constant.
pub open spec fn spec_build(c: NetConf) -> ConnectOpts {
    ConnectOpts {
        use_udp: opt_or(c.use_udp, false),
        fast_open: opt_or(c.fast_open, false),
        zero_copy: opt_or(c.zero_copy, false),
        tcp_timeout: opt_or(c.tcp_timeout, TCP_TIMEOUT),
        udp_timeout: opt_or(c.udp_timeout, UDP_TIMEOUT),
        send_through: None,
        haproxy_opts: HaproxyOpts {
            send_proxy: if opt_or(c.send_proxy, false) {
                opt_or(c.send_proxy_version, PROXY_PROTOCOL_VERSION)
            } else {
                0
            },
            accept_proxy: if opt_or(c.accept_proxy, false) {
                1
            } else {
                0
            },
        },
    }
}

impl NetConf {
    /// Materializes this config into fully-specified connection options.
    /// Total: every field has a deterministic default, so no input fails.
    pub fn build(self) -> (r: ConnectOpts)
        ensures
            r == spec_build(self),
    {
        let use_udp = match self.use_udp {
            Some(v) => v,
            None => false,
        };
        let fast_open = match self.fast_open {
            Some(v) => v,
            None => false,
        };
        let zero_copy = match self.zero_copy {
            Some(v) => v,
            None => false,
        };
        let tcp_timeout = match self.tcp_timeout {
            Some(v) => v,
            None => TCP_TIMEOUT,
        };
        let udp_timeout = match self.udp_timeout {
            Some(v) => v,
            None => UDP_TIMEOUT,
        };
        let accept_proxy: usize = match self.accept_proxy {
            Some(true) => 1,
            _ => 0,
        };
        let send_proxy: usize = match self.send_proxy {
            Some(true) => match self.send_proxy_version {
                Some(v) => v,
                None => PROXY_PROTOCOL_VERSION,
            },
            _ => 0,
        };
        ConnectOpts {
            use_udp,
            fast_open,
            zero_copy,
            tcp_timeout,
            udp_timeout,
            send_through: None,
            haproxy_opts: HaproxyOpts { send_proxy, accept_proxy },
        }
    }

    /// Fill-missing merge: adopts `other`'s value for each field that is
    /// unset in `self`; fields already set in `self` are preserved.
    pub fn take_field(&mut self, other: &NetConf)
        ensures
            *final(self) == spec_take(*old(self), *other),
    {
        if self.use_udp.is_none() {
            self.use_udp = other.use_udp;
        }
        if self.fast_open.is_none() {
            self.fast_open = other.fast_open;
        }
        if self.zero_copy.is_none() {
            self.zero_copy = other.zero_copy;
        }
        if self.send_proxy.is_none() {
            self.send_proxy = other.send_proxy;
        }
        if self.accept_proxy.is_none() {
            self.accept_proxy = other.accept_proxy;
        }
        if self.send_proxy_version.is_none() {
            self.send_proxy_version = other.send_proxy_version;
        }
        if self.tcp_timeout.is_none() {
            self.tcp_timeout = other.tcp_timeout;
        }
        if self.udp_timeout.is_none() {
            self.udp_timeout = other.udp_timeout;
        }
    }

    /// Force-overwrite merge: each field set in `other` replaces `self`'s
    /// field unconditionally; fields unset in `other` leave `self` untouched.
    pub fn rst_field(&mut self, other: &NetConf)
        ensures
            *final(self) == spec_rst(*old(self), *other),
    {
        if other.use_udp.is_some() {
            self.use_udp = other.use_udp;
        }
        if other.fast_open.is_some() {
            self.fast_open = other.fast_open;
        }
        if other.zero_copy.is_some() {
            self.zero_copy = other.zero_copy;
        }
        if other.send_proxy.is_some() {
            self.send_proxy = other.send_proxy;
        }
        if other.accept_proxy.is_some() {
            self.accept_proxy = other.accept_proxy;
        }
        if other.send_proxy_version.is_some() {
            self.send_proxy_version = other.send_proxy_version;
        }
        if other.tcp_timeout.is_some() {
            self.tcp_timeout = other.tcp_timeout;
        }
        if other.udp_timeout.is_some() {
            self.udp_timeout = other.udp_timeout;
        }
    }
}

impl Default for NetConf {
    /// The all-unset config: every field left open for a later source.
    fn default() -> (r: NetConf)
        ensures
            r.use_udp is None,
            r.fast_open is None,
            r.zero_copy is None,
            r.send_proxy is None,
            r.accept_proxy is None,
            r.send_proxy_version is None,
            r.tcp_timeout is None,
            r.udp_timeout is None,
    {
        NetConf {
            use_udp: None,
            fast_open: None,
            zero_copy: None,
            send_proxy: None,
            accept_proxy: None,
            send_proxy_version: None,
            tcp_timeout: None,
            udp_timeout: None,
        }
    }
}

/// Law: fill-missing is left-preferential. For every field, if `self`'s
/// field is set before the merge, it is unchanged by `take_field`,
/// regardless of `other`.
pub proof fn lemma_take_left_preferential(a: NetConf, b: NetConf)
    ensures
        a.use_udp is Some ==> spec_take(a, b).use_udp == a.use_udp,
        a.fast_open is Some ==> spec_take(a, b).fast_open == a.fast_open,
        a.zero_copy is Some ==> spec_take(a, b).zero_copy == a.zero_copy,
        a.send_proxy is Some ==> spec_take(a, b).send_proxy == a.send_proxy,
        a.accept_proxy is Some ==> spec_take(a, b).accept_proxy == a.accept_proxy,
        a.send_proxy_version is Some ==> spec_take(a, b).send_proxy_version
            == a.send_proxy_version,
        a.tcp_timeout is Some ==> spec_take(a, b).tcp_timeout == a.tcp_timeout,
        a.udp_timeout is Some ==> spec_take(a, b).udp_timeout == a.udp_timeout,
{
}

/// Law: fill-missing fills gaps. For every field, if `self`'s field is unset
/// before the merge, `take_field` adopts `other`'s value, set or not.
pub proof fn lemma_take_fills_gaps(a: NetConf, b: NetConf)
    ensures
        a.use_udp is None ==> spec_take(a, b).use_udp == b.use_udp,
        a.fast_open is None ==> spec_take(a, b).fast_open == b.fast_open,
        a.zero_copy is None ==> spec_take(a, b).zero_copy == b.zero_copy,
        a.send_proxy is None ==> spec_take(a, b).send_proxy == b.send_proxy,
        a.accept_proxy is None ==> spec_take(a, b).accept_proxy == b.accept_proxy,
        a.send_proxy_version is None ==> spec_take(a, b).send_proxy_version
            == b.send_proxy_version,
        a.tcp_timeout is None ==> spec_take(a, b).tcp_timeout == b.tcp_timeout,
        a.udp_timeout is None ==> spec_take(a, b).udp_timeout == b.udp_timeout,
{
}

/// Law: force-overwrite is right-preferential when present. For every field,
/// if `other`'s field is set, `rst_field` takes it, regardless of `self`'s
/// prior value.
pub proof fn lemma_rst_right_preferential(a: NetConf, b: NetConf)
    ensures
        b.use_udp is Some ==> spec_rst(a, b).use_udp == b.use_udp,
        b.fast_open is Some ==> spec_rst(a, b).fast_open == b.fast_open,
        b.zero_copy is Some ==> spec_rst(a, b).zero_copy == b.zero_copy,
        b.send_proxy is Some ==> spec_rst(a, b).send_proxy == b.send_proxy,
        b.accept_proxy is Some ==> spec_rst(a, b).accept_proxy == b.accept_proxy,
        b.send_proxy_version is Some ==> spec_rst(a, b).send_proxy_version
            == b.send_proxy_version,
        b.tcp_timeout is Some ==> spec_rst(a, b).tcp_timeout == b.tcp_timeout,
        b.udp_timeout is Some ==> spec_rst(a, b).udp_timeout == b.udp_timeout,
{
}

/// Law: force-overwrite preserves on absence. For every field, if `other`'s
/// field is unset, `rst_field` leaves `self`'s field unchanged.
pub proof fn lemma_rst_preserves_on_absence(a: NetConf, b: NetConf)
    ensures
        b.use_udp is None ==> spec_rst(a, b).use_udp == a.use_udp,
        b.fast_open is None ==> spec_rst(a, b).fast_open == a.fast_open,
        b.zero_copy is None ==> spec_rst(a, b).zero_copy == a.zero_copy,
        b.send_proxy is None ==> spec_rst(a, b).send_proxy == a.send_proxy,
        b.accept_proxy is None ==> spec_rst(a, b).accept_proxy == a.accept_proxy,
        b.send_proxy_version is None ==> spec_rst(a, b).send_proxy_version
            == a.send_proxy_version,
        b.tcp_timeout is None ==> spec_rst(a, b).tcp_timeout == a.tcp_timeout,
        b.udp_timeout is None ==> spec_rst(a, b).udp_timeout == a.udp_timeout,
{
}

/// Law: both merges are idempotent while `other` is unchanged: applying the
/// same merge against the same `other` a second time changes nothing.
pub proof fn lemma_merge_idempotent(a: NetConf, b: NetConf)
    ensures
        spec_take(spec_take(a, b), b) == spec_take(a, b),
        spec_rst(spec_rst(a, b), b) == spec_rst(a, b),
{
}

/// Law: proxy-version coupling. The configured version is irrelevant unless
/// sending is enabled; when sending is enabled the version defaults to the
/// protocol-version constant.
pub proof fn lemma_proxy_version_coupling(c: NetConf)
    ensures
        !opt_or(c.send_proxy, false) ==> spec_build(c).haproxy_opts.send_proxy == 0,
        c.send_proxy == Some(true) && c.send_proxy_version is None ==> spec_build(
            c,
        ).haproxy_opts.send_proxy == PROXY_PROTOCOL_VERSION,
        c.send_proxy == Some(true) && c.send_proxy_version is Some ==> spec_build(
            c,
        ).haproxy_opts.send_proxy == c.send_proxy_version->0,
{
}

/// Law: accept-proxy widening. An enabled acceptance becomes the integer
/// flag `1`; an unset or disabled one becomes `0`.
pub proof fn lemma_accept_proxy_widening(c: NetConf)
    ensures
        c.accept_proxy == Some(true) ==> spec_build(c).haproxy_opts.accept_proxy == 1,
        c.accept_proxy is None || c.accept_proxy == Some(false) ==> spec_build(
            c,
        ).haproxy_opts.accept_proxy == 0,
{
}

} // verus!
