//! Construction of a [`NetConf`] from a parsed command-line argument lookup.
//!
//! The lookup itself — flag names, help text, the parsing framework — is an
//! external collaborator; this module consumes only the already-parsed
//! presence of boolean flags and the raw text of value flags.

use vstd::prelude::*;
use crate::net::NetConf;
use crate::num::{dec_value, parse_u64, parse_usize, strip_sign, valid_dec_u64, valid_dec_usize};

verus! {

/// The parsed command-line values the network config reads, by logical flag
/// name: whether each presence-style boolean flag was given, and the raw
/// text of each value-style flag, where given.
#[derive(Clone, Debug)]
pub struct CmdArgs {
    pub use_udp: bool,
    pub fast_open: bool,
    pub zero_copy: bool,
    pub send_proxy: bool,
    pub accept_proxy: bool,
    pub tcp_timeout: Option<String>,
    pub udp_timeout: Option<String>,
    pub send_proxy_version: Option<String>,
}

impl Default for CmdArgs {
    /// A lookup with no flag present and no value given.
    fn default() -> (r: CmdArgs)
        ensures
            !r.use_udp,
            !r.fast_open,
            !r.zero_copy,
            !r.send_proxy,
            !r.accept_proxy,
            r.tcp_timeout is None,
            r.udp_timeout is None,
            r.send_proxy_version is None,
    {
        CmdArgs {
            use_udp: false,
            fast_open: false,
            zero_copy: false,
            send_proxy: false,
            accept_proxy: false,
            tcp_timeout: None,
            udp_timeout: None,
            send_proxy_version: None,
        }
    }
}

/// A user-supplied but unparsable numeric argument value: a fatal input
/// error that must not be masked by a default.
#[derive(Clone, Copy, Debug, PartialEq, Eq, Structural)]
pub enum CmdArgError {
    InvalidTcpTimeout,
    InvalidUdpTimeout,
    InvalidSendProxyVersion,
}

/// Presence of a boolean flag can only turn the option on: present maps to
/// set-true, absent to unset (there is no command-line way to force an
/// explicit "off").
pub open spec fn flag_opt(present: bool) -> Option<bool> {
    if present {
        Some(true)
    } else {
        None
    }
}

/// The config a well-formed lookup constructs: presence flags become
/// set-true or unset; value flags become their denoted numbers or unset.
pub open spec fn spec_from_cmd_args(a: CmdArgs) -> NetConf {
    NetConf {
        use_udp: flag_opt(a.use_udp),
        fast_open: flag_opt(a.fast_open),
        zero_copy: flag_opt(a.zero_copy),
        send_proxy: flag_opt(a.send_proxy),
        accept_proxy: flag_opt(a.accept_proxy),
        send_proxy_version: match a.send_proxy_version {
            Some(s) => Some(dec_value(strip_sign(s@)) as usize),
            None => None,
        },
        tcp_timeout: match a.tcp_timeout {
            Some(s) => Some(dec_value(strip_sign(s@)) as u64),
            None => None,
        },
        udp_timeout: match a.udp_timeout {
            Some(s) => Some(dec_value(strip_sign(s@)) as u64),
            None => None,
        },
    }
}

/// All value flags of the lookup that are given hold well-formed numbers of
/// their target types.
pub open spec fn cmd_args_well_formed(a: CmdArgs) -> bool {
    &&& (a.tcp_timeout is Some ==> valid_dec_u64(a.tcp_timeout->0@))
    &&& (a.udp_timeout is Some ==> valid_dec_u64(a.udp_timeout->0@))
    &&& (a.send_proxy_version is Some ==> valid_dec_usize(a.send_proxy_version->0@))
}

impl NetConf {
    /// Builds an overlay config from a parsed-argument lookup. Succeeds on
    /// exactly the lookups whose given value flags are well-formed numbers;
    /// a malformed numeric value is reported as the error naming the first
    /// offending flag, never substituted by a default.
    pub fn from_cmd_args(args: &CmdArgs) -> (r: Result<NetConf, CmdArgError>)
        ensures
            r is Ok <==> cmd_args_well_formed(*args),
            r is Ok ==> r->Ok_0 == spec_from_cmd_args(*args),
            r == Result::<NetConf, CmdArgError>::Err(CmdArgError::InvalidTcpTimeout)
                <==> args.tcp_timeout is Some && !valid_dec_u64(args.tcp_timeout->0@),
            r == Result::<NetConf, CmdArgError>::Err(CmdArgError::InvalidUdpTimeout) <==> (
            args.tcp_timeout is Some ==> valid_dec_u64(args.tcp_timeout->0@))
                && args.udp_timeout is Some && !valid_dec_u64(args.udp_timeout->0@),
            r == Result::<NetConf, CmdArgError>::Err(CmdArgError::InvalidSendProxyVersion) <==> (
            args.tcp_timeout is Some ==> valid_dec_u64(args.tcp_timeout->0@)) && (
            args.udp_timeout is Some ==> valid_dec_u64(args.udp_timeout->0@))
                && args.send_proxy_version is Some && !valid_dec_usize(
                args.send_proxy_version->0@,
            ),
    {
        let tcp_timeout = match &args.tcp_timeout {
            Some(s) => match parse_u64(s.as_str()) {
                Some(v) => Some(v),
                None => {
                    return Err(CmdArgError::InvalidTcpTimeout);
                },
            },
            None => None,
        };
        let udp_timeout = match &args.udp_timeout {
            Some(s) => match parse_u64(s.as_str()) {
                Some(v) => Some(v),
                None => {
                    return Err(CmdArgError::InvalidUdpTimeout);
                },
            },
            None => None,
        };
        let send_proxy_version = match &args.send_proxy_version {
            Some(s) => match parse_usize(s.as_str()) {
                Some(v) => Some(v),
                None => {
                    return Err(CmdArgError::InvalidSendProxyVersion);
                },
            },
            None => None,
        };
        Ok(
            NetConf {
                use_udp: if args.use_udp {
                    Some(true)
                } else {
                    None
                },
                fast_open: if args.fast_open {
                    Some(true)
                } else {
                    None
                },
                zero_copy: if args.zero_copy {
                    Some(true)
                } else {
                    None
                },
                send_proxy: if args.send_proxy {
                    Some(true)
                } else {
                    None
                },
                accept_proxy: if args.accept_proxy {
                    Some(true)
                } else {
                    None
                },
                send_proxy_version,
                tcp_timeout,
                udp_timeout,
            },
        )
    }
}

} // verus!
