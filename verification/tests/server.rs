use wechat_mp_mcp::server::{
    allowed_hosts_with_config, render_command_path, split_comma_list, transport_from_setting,
    we_user_matches, Transport,
};

#[test]
fn we_user_auth_requires_exact_header_value() {
    assert!(we_user_matches(Some("tobeurself")));
    assert!(!we_user_matches(Some("other")));
    assert!(!we_user_matches(None));
}

#[test]
fn remote_bind_requires_explicit_allowed_hosts() {
    assert!(allowed_hosts_with_config(false, vec![]).unwrap_err().contains("required"));
}

#[test]
fn allowed_hosts_defaults_and_configuration() {
    assert_eq!(
        allowed_hosts_with_config(true, vec![]).unwrap(),
        vec!["localhost".to_string(), "127.0.0.1".to_string(), "::1".to_string()]
    );
    assert_eq!(
        allowed_hosts_with_config(false, vec!["mcp.example.com".into()]).unwrap(),
        vec!["mcp.example.com".to_string()]
    );
}

#[test]
fn comma_lists() {
    assert_eq!(
        split_comma_list(" 203.0.113.10:8000 ,, mcp.example.com ,"),
        vec!["203.0.113.10:8000".to_string(), "mcp.example.com".to_string()]
    );
    assert!(split_comma_list("").is_empty());
    assert!(split_comma_list(" , ").is_empty());
}

#[test]
fn transports() {
    assert_eq!(transport_from_setting(None), Ok(Transport::Http));
    assert_eq!(transport_from_setting(Some("STDIO")), Ok(Transport::Stdio));
    assert_eq!(transport_from_setting(Some("Streamable_HTTP")), Ok(Transport::Http));
    assert_eq!(
        transport_from_setting(Some("Grpc")).unwrap_err(),
        "unsupported WECHAT_TRANSPORT=grpc; use http or stdio"
    );
}

#[test]
fn render_command_arguments() {
    assert_eq!(render_command_path(&vec![]), Ok(None));
    assert_eq!(render_command_path(&vec!["render".into(), "note.json".into()]), Ok(Some("note.json".into())));
    assert_eq!(
        render_command_path(&vec!["serve".into()]).unwrap_err(),
        "unknown command serve; use `render <note.json>` or start without arguments"
    );
    assert_eq!(
        render_command_path(&vec!["render".into()]).unwrap_err(),
        "usage: wechat-mp-mcp render <note.json>"
    );
    assert!(render_command_path(&vec!["render".into(), "a".into(), "b".into()]).is_err());
}
