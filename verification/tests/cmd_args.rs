use netconf::args::{CmdArgError, CmdArgs};
use netconf::net::NetConf;
use netconf::num::{parse_u64, parse_usize};

#[test]
fn presence_flags_map_to_some_true_or_none() {
    let args = CmdArgs {
        use_udp: true,
        ..CmdArgs::default()
    };
    let conf = NetConf::from_cmd_args(&args).unwrap();
    assert_eq!(conf.use_udp, Some(true));
    assert_eq!(conf.fast_open, None);
    assert_eq!(conf.zero_copy, None);
    assert_eq!(conf.send_proxy, None);
    assert_eq!(conf.accept_proxy, None);
    assert_eq!(conf.tcp_timeout, None);
    assert_eq!(conf.udp_timeout, None);
    assert_eq!(conf.send_proxy_version, None);
}

#[test]
fn value_flags_parse_into_numbers() {
    let args = CmdArgs {
        send_proxy: true,
        accept_proxy: true,
        tcp_timeout: Some("120".to_string()),
        udp_timeout: Some("15".to_string()),
        send_proxy_version: Some("1".to_string()),
        ..CmdArgs::default()
    };
    let conf = NetConf::from_cmd_args(&args).unwrap();
    assert_eq!(conf.tcp_timeout, Some(120));
    assert_eq!(conf.udp_timeout, Some(15));
    assert_eq!(conf.send_proxy_version, Some(1));
    assert_eq!(conf.send_proxy, Some(true));
    assert_eq!(conf.accept_proxy, Some(true));
}

#[test]
fn malformed_tcp_timeout_fails_construction() {
    let args = CmdArgs {
        tcp_timeout: Some("abc".to_string()),
        ..CmdArgs::default()
    };
    assert_eq!(
        NetConf::from_cmd_args(&args),
        Err(CmdArgError::InvalidTcpTimeout)
    );
}

#[test]
fn malformed_udp_timeout_fails_construction() {
    let args = CmdArgs {
        udp_timeout: Some("1x".to_string()),
        ..CmdArgs::default()
    };
    assert_eq!(
        NetConf::from_cmd_args(&args),
        Err(CmdArgError::InvalidUdpTimeout)
    );
}

#[test]
fn malformed_send_proxy_version_fails_construction() {
    let args = CmdArgs {
        send_proxy_version: Some("".to_string()),
        ..CmdArgs::default()
    };
    assert_eq!(
        NetConf::from_cmd_args(&args),
        Err(CmdArgError::InvalidSendProxyVersion)
    );
}

#[test]
fn first_malformed_flag_names_the_error() {
    let args = CmdArgs {
        tcp_timeout: Some("oops".to_string()),
        udp_timeout: Some("also bad".to_string()),
        ..CmdArgs::default()
    };
    assert_eq!(
        NetConf::from_cmd_args(&args),
        Err(CmdArgError::InvalidTcpTimeout)
    );
}

#[test]
fn parse_u64_follows_unsigned_grammar() {
    assert_eq!(parse_u64("0"), Some(0));
    assert_eq!(parse_u64("007"), Some(7));
    assert_eq!(parse_u64("18446744073709551615"), Some(u64::MAX));
    assert_eq!(parse_u64(""), None);
    assert_eq!(parse_u64("-1"), None);
    assert_eq!(parse_u64("1 2"), None);
    assert_eq!(parse_u64("18446744073709551616"), None);
    assert_eq!(parse_u64("99999999999999999999999999"), None);
}

#[test]
fn parse_u64_accepts_one_leading_plus() {
    assert_eq!(parse_u64("+1"), Some(1));
    assert_eq!(parse_u64("+0"), Some(0));
    assert_eq!(parse_u64("+18446744073709551615"), Some(u64::MAX));
    assert_eq!(parse_u64("+"), None);
    assert_eq!(parse_u64("++1"), None);
    assert_eq!(parse_u64("1+"), None);
}

#[test]
fn parse_usize_follows_unsigned_grammar() {
    assert_eq!(parse_usize("2"), Some(2));
    assert_eq!(parse_usize("65536"), Some(65536));
    assert_eq!(parse_usize("+9"), Some(9));
    assert_eq!(parse_usize("abc"), None);
    assert_eq!(parse_usize(""), None);
    assert_eq!(parse_usize("+"), None);
}

#[test]
fn signed_timeout_value_parses_like_unsigned_grammar() {
    let args = CmdArgs {
        tcp_timeout: Some("+30".to_string()),
        ..CmdArgs::default()
    };
    let conf = NetConf::from_cmd_args(&args).unwrap();
    assert_eq!(conf.tcp_timeout, Some(30));
}

#[test]
fn cmd_args_then_build_round() {
    let args = CmdArgs {
        use_udp: true,
        send_proxy: true,
        tcp_timeout: Some("45".to_string()),
        ..CmdArgs::default()
    };
    let opts = NetConf::from_cmd_args(&args).unwrap().build();
    assert!(opts.use_udp);
    assert_eq!(opts.tcp_timeout, 45);
    assert_eq!(opts.haproxy_opts.send_proxy, 2);
}
