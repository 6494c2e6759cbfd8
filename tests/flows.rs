use rsrpc::cmd::{Activity, ActivityCmd, ActivityCmdArgs, TimeoutValue, Timestamps};
use rsrpc::codec::{decode, encode, payload_text, PacketType};
use rsrpc::hub::{empty_activity, ClientConnector, Outbound};
use rsrpc::ipc::{ConnectionState, Handshake};
use rsrpc::utils::connection_resp;

fn game_cmd() -> ActivityCmd {
    let activity = Activity {
        id: None, name: Some("g".to_string()), buttons: None, activity_type: 0, url: None, created_at: None,
        session_id: None, platform: None, supported_platforms: None,
        timestamps: Some(Timestamps { start: Some(TimeoutValue(1_700_000_000)), end: None }),
        application_id: None, details: None, state: None, sync_id: None, instance: None, flags: None,
        emoji: None, party: None, assets: None, secrets: None, metadata: None,
    };
    ActivityCmd {
        application_id: None,
        cmd: "SET_ACTIVITY".to_string(),
        args: Some(ActivityCmdArgs { pid: Some(4321), activity: Some(activity), code: None }),
        data: None,
        evt: None,
        nonce: "\"n\"".to_string(),
    }
}

#[test]
fn ipc_happy_path_reaches_subscribers() {
    let mut conn = ConnectionState::new();
    let hello = encode(PacketType::Handshake, "{\"v\":1,\"client_id\":\"999\"}".to_string());
    let (op, body) = decode(&hello).unwrap();
    let text = payload_text(body).unwrap();
    let act = conn.step(op, text, Some(Handshake { v: 1, client_id: "999".to_string() }), None);
    let (reply_op, reply_body) = decode(&act.reply.unwrap()).unwrap();
    assert_eq!(reply_op, PacketType::Frame);
    assert_eq!(payload_text(reply_body), Some(connection_resp()));

    let act = conn.step(PacketType::Frame, String::new(), None, Some(game_cmd()));
    let mut hub = ClientConnector::new(1337, connection_resp());
    let out = hub.on_ipc_event(act.post.unwrap(), true, 1_700_000_000);
    match &out[0] {
        Outbound::Payload(p) => {
            let a = p.activity.as_ref().unwrap();
            assert_eq!(a.application_id, Some("999".to_string()));
            assert_eq!(p.pid, Some(4321));
            assert_eq!(a.timestamps.unwrap().start, Some(TimeoutValue(1_700_000_000_000)));
        }
        _ => panic!("expected an activity"),
    }
}

#[test]
fn ipc_close_reaches_subscribers_as_clearing_frame() {
    let mut conn = ConnectionState::new();
    conn.step(PacketType::Handshake, String::new(), Some(Handshake { v: 1, client_id: "999".to_string() }), None);
    conn.step(PacketType::Frame, String::new(), None, Some(game_cmd()));
    let act = conn.step(PacketType::Close, String::new(), None, None);
    assert!(act.close && act.recreate_socket);
    let cleared = act.post.unwrap();
    assert_eq!(cleared.args.as_ref().unwrap().pid, Some(4321));
    let mut stamped = game_cmd();
    stamped.application_id = Some("999".to_string());
    let mut hub = ClientConnector::new(1337, connection_resp());
    hub.on_ipc_event(stamped, true, 1_700_000_000);
    assert_eq!(hub.active_socket, Some("999".to_string()));
    let out = hub.on_ipc_event(cleared, true, 1_700_000_000);
    match &out[0] {
        Outbound::Text(t) => assert_eq!(t, &empty_activity(4321, "0")),
        _ => panic!("expected a clearing frame"),
    }
    assert_eq!(hub.active_socket, None);
}

#[test]
fn ipc_owner_is_cleared_when_the_scanner_switches() {
    let mut ipc = game_cmd();
    ipc.application_id = Some("A".to_string());
    let mut hub = ClientConnector::new(1337, connection_resp());
    hub.on_ipc_event(ipc, true, 1_700_000_000);
    let mut b = rsrpc::detection::DetectableActivity::sentinel();
    b.id = "B".to_string();
    b.name = "Beta".to_string();
    b.pid = Some(20);
    b.timestamp = Some("6".to_string());
    let out = hub.on_process_event(&b, true);
    let texts: Vec<String> = out.iter().map(|o| match o {
        Outbound::Text(t) => t.clone(),
        _ => panic!("not a text frame"),
    }).collect();
    assert_eq!(texts, vec![empty_activity(4321, "A"), rsrpc::hub::render_activity(&b)]);
    assert_eq!(hub.active_socket, Some("B".to_string()));
}
