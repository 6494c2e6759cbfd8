use rsrpc::cmd::{ActivityCmd, ActivityCmdArgs};
use rsrpc::websocket::{accepts_connection, classify, get_url_params, handle_disconnect, handle_invite, handle_set_activity, next_port, origin_allowed, passes_on, url_param, IntakeCommand};

#[test]
fn url_params_in_order() {
    let ps = get_url_params("/?v=1&encoding=json&bad&a=b=c".to_string());
    assert_eq!(ps, vec![("v".to_string(), "1".to_string()), ("encoding".to_string(), "json".to_string())]);
}

#[test]
fn url_params_need_one_question_mark() {
    assert!(get_url_params("/path".to_string()).is_empty());
    assert!(get_url_params("/?a=1?b=2".to_string()).is_empty());
}

#[test]
fn last_parameter_wins() {
    let ps = get_url_params("/?v=2&v=1".to_string());
    assert_eq!(url_param(&ps, "v"), Some("1".to_string()));
    assert_eq!(url_param(&ps, "x"), None);
}

#[test]
fn connection_needs_version_one_and_json() {
    assert!(accepts_connection("/?v=1&encoding=json".to_string()));
    assert!(!accepts_connection("/?v=1".to_string()));
    assert!(!accepts_connection("/?encoding=json".to_string()));
    assert!(!accepts_connection("/?v=1&encoding=etf".to_string()));
    assert!(!accepts_connection("/?v=2&encoding=json".to_string()));
}

#[test]
fn origins_are_restricted() {
    assert!(origin_allowed(None));
    assert!(origin_allowed(Some("https://discord.com")));
    assert!(origin_allowed(Some("https://canary.discord.com")));
    assert!(origin_allowed(Some("https://ptb.discord.com")));
    assert!(!origin_allowed(Some("https://evil.example")));
    assert!(!origin_allowed(Some("https://discord.com.evil")));
}

#[test]
fn ports_run_through_the_range_in_order() {
    let mut tried = vec![];
    let mut p = next_port(None);
    while let Some(x) = p {
        tried.push(x);
        p = next_port(Some(x));
    }
    assert_eq!(tried, (6463..=6472).collect::<Vec<u16>>());
    assert_eq!(next_port(Some(80)), None);
}

#[test]
fn commands_are_classified() {
    assert_eq!(classify(&"INVITE_BROWSER".to_string()), IntakeCommand::Invite);
    assert_eq!(classify(&"SET_ACTIVITY".to_string()), IntakeCommand::SetActivity);
    assert_eq!(classify(&"DEEP_LINK".to_string()), IntakeCommand::DeepLink);
    assert_eq!(classify(&"GUILD_TEMPLATE_BROWSER".to_string()), IntakeCommand::Other);
}

#[test]
fn invite_is_forwarded_and_answered() {
    let mut c = ActivityCmd::empty();
    c.cmd = "INVITE_BROWSER".to_string();
    c.args = Some(ActivityCmdArgs { pid: None, activity: None, code: Some("abc".to_string()) });
    c.nonce = "\"7\"".to_string();
    let (forward, response) = handle_invite(c);
    assert_eq!(forward.args.unwrap().code, Some("abc".to_string()));
    assert_eq!(response.cmd, "INVITE_BROWSER");
    assert_eq!(response.data, Some(vec![("code".to_string(), "abc".to_string())]));
    assert_eq!(response.nonce, "\"7\"");
    assert!(response.args.is_none());
}

#[test]
fn invite_with_numbers_gives_empty_map() {
    let mut c = ActivityCmd::empty();
    c.cmd = "INVITE_BROWSER".to_string();
    c.args = Some(ActivityCmdArgs { pid: Some(3), activity: None, code: Some("abc".to_string()) });
    let (_, response) = handle_invite(c);
    assert_eq!(response.data, Some(vec![]));
}

#[test]
fn disconnect_clears_last_activity() {
    assert!(handle_disconnect(&None).is_none());
    let mut c = ActivityCmd::empty();
    c.application_id = Some("app".to_string());
    c.cmd = "SET_ACTIVITY".to_string();
    c.args = Some(ActivityCmdArgs { pid: Some(12), activity: None, code: None });
    c.nonce = "\"q\"".to_string();
    let x = handle_disconnect(&Some(c)).unwrap();
    assert_eq!(x.cmd, "SET_ACTIVITY");
    assert_eq!(x.application_id, Some("app".to_string()));
    assert_eq!(x.nonce, "\"q\"");
    assert_eq!(x.args.unwrap().pid, Some(12));
}

#[test]
fn enable_flags_gate_intake_commands() {
    assert!(passes_on(IntakeCommand::SetActivity, true, false));
    assert!(!passes_on(IntakeCommand::SetActivity, false, true));
    assert!(passes_on(IntakeCommand::Invite, false, true));
    assert!(!passes_on(IntakeCommand::Other, true, false));
    assert!(!passes_on(IntakeCommand::DeepLink, true, true));
}

#[test]
fn set_activity_is_normalised_and_remembered() {
    let mut c = ActivityCmd::empty();
    c.application_id = Some("app".to_string());
    c.cmd = "SET_ACTIVITY".to_string();
    c.nonce = "\"k\"".to_string();
    c.args = Some(ActivityCmdArgs { pid: Some(5), activity: None, code: None });
    let (forward, remembered) = handle_set_activity(c, 1_700_000_000);
    assert_eq!(forward.args.as_ref().unwrap().pid, Some(5));
    assert_eq!(remembered.application_id, Some("app".to_string()));
    assert_eq!(remembered.nonce, "\"k\"");
    let clear = handle_disconnect(&Some(remembered)).unwrap();
    assert_eq!(clear.args.unwrap().pid, Some(5));
}
