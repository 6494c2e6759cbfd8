use rsrpc::cmd::{ActivityCmd, ActivityCmdArgs};
use rsrpc::codec::{encode, PacketType};
use rsrpc::ipc::{get_socket_path, next_suffix, socket_name, ConnectionState, Handshake};
use rsrpc::utils::connection_resp;

fn shaken() -> ConnectionState {
    let mut s = ConnectionState::new();
    s.step(PacketType::Handshake, String::new(), Some(Handshake { v: 1, client_id: "999".to_string() }), None);
    s
}

fn set_activity(pid: Option<u64>) -> ActivityCmd {
    ActivityCmd {
        application_id: Some("spoofed".to_string()),
        cmd: "SET_ACTIVITY".to_string(),
        args: Some(ActivityCmdArgs { pid, activity: None, code: None }),
        data: None,
        evt: None,
        nonce: "\"n\"".to_string(),
    }
}

#[test]
fn handshake_answers_with_ready_payload() {
    let mut s = ConnectionState::new();
    let act = s.step(PacketType::Handshake, String::new(), Some(Handshake { v: 1, client_id: "999".to_string() }), None);
    assert!(s.did_handshake);
    assert_eq!(s.client_id, "999");
    assert_eq!(act.reply, Some(encode(PacketType::Frame, connection_resp())));
    assert!(act.post.is_none());
    assert!(!act.close);
}

#[test]
fn ready_payload_is_the_fixed_json() {
    let r = connection_resp();
    assert!(r.starts_with("{\"cmd\":\"DISPATCH\",\"evt\":\"READY\""));
    assert!(r.contains("\"username\":\"arRPC\""));
}

#[test]
fn wrong_version_is_ignored() {
    let mut s = ConnectionState::new();
    let act = s.step(PacketType::Handshake, String::new(), Some(Handshake { v: 2, client_id: "999".to_string() }), None);
    assert!(!s.did_handshake);
    assert!(act.reply.is_none() && act.post.is_none() && !act.close);
    let act = s.step(PacketType::Handshake, "junk".to_string(), None, None);
    assert!(act.reply.is_none());
}

#[test]
fn nothing_before_handshake() {
    let mut s = ConnectionState::new();
    let act = s.step(PacketType::Frame, String::new(), None, Some(set_activity(Some(1))));
    assert!(act.post.is_none());
    let act = s.step(PacketType::Ping, "p".to_string(), None, None);
    assert!(act.reply.is_none());
    let act = s.step(PacketType::Close, String::new(), None, None);
    assert!(!act.close);
}

#[test]
fn frame_is_stamped_with_client_id() {
    let mut s = shaken();
    let act = s.step(PacketType::Frame, String::new(), None, Some(set_activity(Some(4321))));
    let posted = act.post.unwrap();
    assert_eq!(posted.application_id, Some("999".to_string()));
    assert_eq!(posted.args.unwrap().pid, Some(4321));
    assert_eq!(s.pid, 4321);
    assert_eq!(s.nonce, "\"n\"");
}

#[test]
fn frame_without_pid_sets_zero() {
    let mut s = shaken();
    s.step(PacketType::Frame, String::new(), None, Some(set_activity(Some(5))));
    s.step(PacketType::Frame, String::new(), None, Some(set_activity(None)));
    assert_eq!(s.pid, 0);
}

#[test]
fn malformed_frame_posts_empty_activity() {
    let mut s = shaken();
    s.step(PacketType::Frame, String::new(), None, Some(set_activity(Some(77))));
    let act = s.step(PacketType::Frame, "{".to_string(), None, None);
    let posted = act.post.unwrap();
    assert_eq!(posted.cmd, "");
    assert_eq!(posted.args.unwrap().pid, Some(77));
    let mut no_args = set_activity(None);
    no_args.args = None;
    let act = s.step(PacketType::Frame, String::new(), None, Some(no_args));
    assert!(act.post.unwrap().args.unwrap().activity.is_none());
}

#[test]
fn ping_is_answered_with_pong() {
    let mut s = shaken();
    let act = s.step(PacketType::Ping, "hello".to_string(), None, None);
    assert_eq!(act.reply, Some(encode(PacketType::Pong, "hello".to_string())));
    let act = s.step(PacketType::Pong, String::new(), None, None);
    assert!(act.reply.is_none() && act.post.is_none());
}

#[test]
fn close_clears_and_resets() {
    let mut s = shaken();
    s.step(PacketType::Frame, String::new(), None, Some(set_activity(Some(4321))));
    let act = s.step(PacketType::Close, String::new(), None, None);
    let posted = act.post.unwrap();
    assert_eq!(posted.cmd, "SET_ACTIVITY");
    assert_eq!(posted.application_id, Some("999".to_string()));
    assert_eq!(posted.nonce, "\"n\"");
    let args = posted.args.unwrap();
    assert_eq!(args.pid, Some(4321));
    assert!(args.activity.is_none());
    assert!(act.close && act.recreate_socket);
    assert!(!s.did_handshake);
    assert_eq!(s.client_id, "");
    assert_eq!(s.pid, 0);
}

#[test]
fn read_error_clears_and_closes() {
    let mut s = shaken();
    s.step(PacketType::Frame, String::new(), None, Some(set_activity(Some(8))));
    let act = s.on_read_error();
    assert!(act.close && !act.recreate_socket);
    assert_eq!(act.post.unwrap().args.unwrap().pid, Some(8));
}

#[test]
fn socket_path_prefers_runtime_dir() {
    assert_eq!(get_socket_path("/run/user/1000", "/t", "", ""), "/run/user/1000/discord-ipc");
    assert_eq!(get_socket_path("", "/var/tmp/", "", ""), "/var/tmp/discord-ipc");
    assert_eq!(get_socket_path("", "", "", "/temp"), "/temp/discord-ipc");
    assert_eq!(get_socket_path("", "", "", ""), "/tmp/discord-ipc");
}

#[test]
fn socket_suffixes_run_from_zero_to_nine() {
    assert_eq!(socket_name("/tmp/discord-ipc", 0), "/tmp/discord-ipc-0");
    assert_eq!(socket_name("/tmp/discord-ipc", 9), "/tmp/discord-ipc-9");
    assert_eq!(next_suffix(0), Some(1));
    assert_eq!(next_suffix(8), Some(9));
    assert_eq!(next_suffix(9), None);
}

#[test]
fn undecodable_frame_posts_empty_activity_after_handshake() {
    let mut fresh = ConnectionState::new();
    let act = fresh.on_undecodable(PacketType::Frame);
    assert!(act.post.is_none() && act.reply.is_none());
    let mut s = shaken();
    s.step(PacketType::Frame, String::new(), None, Some(set_activity(Some(31))));
    let act = s.on_undecodable(PacketType::Frame);
    assert_eq!(act.post.unwrap().args.unwrap().pid, Some(31));
    assert!(!act.close);
    let act = s.on_undecodable(PacketType::Ping);
    assert!(act.reply.is_none() && act.post.is_none());
}
