use rsrpc::cmd::{Activity, ActivityCmd, ActivityCmdArgs, ActivityPayload, Button, ButtonValue, Metadata, TimeoutValue, Timestamps};
use rsrpc::detection::DetectableActivity;
use rsrpc::hub::{empty_activity, render_activity, render_payload, ClientConnector, Outbound};

fn detected(id: &str, name: &str, pid: u64, ts: &str) -> DetectableActivity {
    let mut a = DetectableActivity::sentinel();
    a.id = id.to_string();
    a.name = name.to_string();
    a.pid = Some(pid);
    a.timestamp = Some(ts.to_string());
    a
}

fn texts(out: &[Outbound]) -> Vec<String> {
    out.iter().map(|o| match o {
        Outbound::Text(t) => t.clone(),
        _ => panic!("not a text frame"),
    }).collect()
}

fn hub() -> ClientConnector {
    ClientConnector::new(1337, rsrpc::utils::connection_resp())
}

#[test]
fn empty_frame_text() {
    assert_eq!(empty_activity(4321, "999"), "{\"activity\":null,\"pid\":4321,\"socketId\":\"999\"}");
}

#[test]
fn empty_frame_escapes_socket_id() {
    assert_eq!(empty_activity(0, "a\"b\\c\n"), "{\"activity\":null,\"pid\":0,\"socketId\":\"a\\\"b\\\\c\\n\"}");
}

#[test]
fn activity_frame_text() {
    let a = detected("42", "Game", 7, "1700000000000");
    assert_eq!(
        render_activity(&a),
        "{\"activity\":{\"application_id\":\"42\",\"name\":\"Game\",\"timestamps\":{\"start\":1700000000000},\"type\":0,\"metadata\":{},\"flags\":0},\"pid\":7,\"socketId\":\"42\"}"
    );
}

#[test]
fn first_detection_sends_activity_only() {
    let mut h = hub();
    let a = detected("A", "Alpha", 10, "5");
    let out = h.on_process_event(&a, true);
    assert_eq!(texts(&out), vec![render_activity(&a)]);
    assert_eq!(h.active_socket, Some("A".to_string()));
    assert_eq!(h.last_pid, Some(10));
}

#[test]
fn switching_clears_old_then_sends_new() {
    let mut h = hub();
    let a = detected("A", "Alpha", 10, "5");
    let b = detected("B", "Beta", 20, "6");
    h.on_process_event(&a, true);
    let out = h.on_process_event(&b, true);
    assert_eq!(texts(&out), vec![empty_activity(10, "A"), render_activity(&b)]);
    assert_eq!(h.active_socket, Some("B".to_string()));
    assert_eq!(h.last_pid, Some(20));
}

#[test]
fn same_application_is_not_sent_again() {
    let mut h = hub();
    let a = detected("A", "Alpha", 10, "5");
    h.on_process_event(&a, true);
    let again = detected("A", "Alpha", 11, "9");
    assert!(h.on_process_event(&again, true).is_empty());
    assert_eq!(h.last_pid, Some(10));
}

#[test]
fn sentinel_clears_only_when_owned() {
    let mut h = hub();
    let none = DetectableActivity::sentinel();
    assert!(h.on_process_event(&none, true).is_empty());
    let a = detected("A", "Alpha", 10, "5");
    h.on_process_event(&a, true);
    let out = h.on_process_event(&none, true);
    assert_eq!(texts(&out), vec![empty_activity(10, "A")]);
    assert_eq!(h.active_socket, None);
    assert!(h.on_process_event(&none, true).is_empty());
}

#[test]
fn nothing_without_subscribers() {
    let mut h = hub();
    let a = detected("A", "Alpha", 10, "5");
    assert!(h.on_process_event(&a, false).is_empty());
    assert_eq!(h.active_socket, None);
    let c = ActivityCmd::empty();
    assert!(h.on_ipc_event(c.clone(), false, 1_700_000_000).is_empty());
    assert!(h.on_ws_event(c, false, 1_700_000_000).is_empty());
}

fn ipc_cmd(activity: Option<Activity>) -> ActivityCmd {
    ActivityCmd {
        application_id: Some("999".to_string()),
        cmd: "SET_ACTIVITY".to_string(),
        args: Some(ActivityCmdArgs { pid: Some(4321), activity, code: None }),
        data: None,
        evt: None,
        nonce: "\"n\"".to_string(),
    }
}

fn game() -> Activity {
    Activity {
        id: None, name: Some("g".to_string()), buttons: None, activity_type: 0, url: None, created_at: None,
        session_id: None, platform: None, supported_platforms: None,
        timestamps: Some(Timestamps { start: Some(TimeoutValue(1_700_000_000)), end: None }),
        application_id: None, details: None, state: None, sync_id: None, instance: None, flags: None,
        emoji: None, party: None, assets: None, secrets: None, metadata: None,
    }
}

#[test]
fn ipc_activity_is_stamped_and_in_milliseconds() {
    let mut h = hub();
    let out = h.on_ipc_event(ipc_cmd(Some(game())), true, 1_700_000_000);
    assert_eq!(out.len(), 1);
    match &out[0] {
        Outbound::Payload(p) => {
            assert_eq!(p.pid, Some(4321));
            assert_eq!(p.socket_id, Some("0".to_string()));
            let a = p.activity.as_ref().unwrap();
            assert_eq!(a.application_id, Some("999".to_string()));
            assert_eq!(a.timestamps.unwrap().start, Some(TimeoutValue(1_700_000_000_000)));
        }
        _ => panic!("expected an activity"),
    }
}

#[test]
fn ipc_clear_uses_last_pid_and_socket_zero() {
    let mut h = hub();
    h.on_process_event(&detected("A", "Alpha", 10, "5"), true);
    let out = h.on_ipc_event(ipc_cmd(None), true, 1_700_000_000);
    assert_eq!(texts(&out), vec![empty_activity(10, "0")]);
    assert_eq!(h.active_socket, Some("A".to_string()));
}

#[test]
fn ipc_without_args_sends_nothing() {
    let mut h = hub();
    assert!(h.on_ipc_event(ActivityCmd::empty(), true, 1_700_000_000).is_empty());
}

#[test]
fn ws_other_command_forwarded_unchanged() {
    let mut h = hub();
    let mut c = ActivityCmd::empty();
    c.cmd = "INVITE_BROWSER".to_string();
    c.args = Some(ActivityCmdArgs { pid: None, activity: None, code: Some("abc".to_string()) });
    c.nonce = "\"7\"".to_string();
    let out = h.on_ws_event(c, true, 1_700_000_000);
    match &out[0] {
        Outbound::Command(x) => {
            assert_eq!(x.cmd, "INVITE_BROWSER");
            assert_eq!(x.args.as_ref().unwrap().code, Some("abc".to_string()));
        }
        _ => panic!("expected the command"),
    }
}

#[test]
fn ws_set_activity_sends_its_arguments() {
    let mut h = hub();
    let out = h.on_ws_event(ipc_cmd(Some(game())), true, 1_700_000_000);
    match &out[0] {
        Outbound::Args(a) => {
            assert_eq!(a.pid, Some(4321));
            let t = a.activity.as_ref().unwrap().timestamps.unwrap();
            assert_eq!(t.start, Some(TimeoutValue(1_700_000_000_000)));
        }
        _ => panic!("expected the arguments"),
    }
}

#[test]
fn ipc_activity_frame_text() {
    let mut a = game();
    a.application_id = Some("999".to_string());
    a.timestamps = Some(Timestamps { start: Some(TimeoutValue(-5)), end: Some(TimeoutValue(7)) });
    a.buttons = Some(vec![ButtonValue::Label("Play".to_string())]);
    a.metadata = Some(Metadata { button_urls: Some(vec!["https://x".to_string()]), artist_ids: None, album_id: None, context_uri: None });
    let p = ActivityPayload { activity: Some(a), pid: Some(4321), socket_id: Some("0".to_string()) };
    assert_eq!(
        render_payload(&p),
        "{\"activity\":{\"application_id\":\"999\",\"name\":\"g\",\"timestamps\":{\"start\":-5,\"end\":7},\"assets\":null,\"details\":\"\",\"state\":\"\",\"type\":0,\"buttons\":[\"Play\"],\"metadata\":{\"button_urls\":[\"https://x\"]},\"flags\":0},\"pid\":4321,\"socketId\":\"0\"}"
    );
    let link = ButtonValue::Link(Button { label: "L".to_string(), url: "U".to_string() });
    let mut b = game();
    b.timestamps = None;
    b.name = None;
    b.buttons = Some(vec![link, ButtonValue::Other("42".to_string())]);
    let q = ActivityPayload { activity: Some(b), pid: None, socket_id: None };
    assert_eq!(
        render_payload(&q),
        "{\"activity\":{\"application_id\":\"\",\"timestamps\":{},\"assets\":null,\"details\":\"\",\"state\":\"\",\"type\":0,\"buttons\":[{\"label\":\"L\",\"url\":\"U\"},42],\"metadata\":{\"button_urls\":[]},\"flags\":0},\"pid\":0,\"socketId\":\"0\"}"
    );
}
