//! The per-connection state machine of the native IPC endpoint, and the
//! names its listener binds to.
use vstd::prelude::*;
use vstd::utf8::encode_utf8;
use crate::cmd::{ActivityCmd, ActivityCmdArgs};
use crate::codec::{PacketType, encode, frame_bytes};
use crate::text::{chars_of, push_str};
use crate::json::{decimal, push_decimal};
use crate::utils::{connection_resp, ready_payload};

verus! {

/// The body of a handshake message.
#[derive(Clone, Debug)]
pub struct Handshake {
    pub v: u32,
    pub client_id: String,
}

/// What one connection remembers between messages.
#[derive(Clone, Debug)]
pub struct ConnectionState {
    /// A valid handshake has been received.
    pub did_handshake: bool,
    /// The client id of that handshake.
    pub client_id: String,
    /// The process id of the most recent activity command.
    pub pid: u64,
    /// The nonce of the most recent activity command.
    pub nonce: String,
}

/// What the connection's worker does after a message.
#[derive(Debug)]
pub struct IpcAction {
    /// Bytes to write back to the client.
    pub reply: Option<Vec<u8>>,
    /// A command to post to the hub.
    pub post: Option<ActivityCmd>,
    /// The connection is over.
    pub close: bool,
    /// The listener socket is to be created anew.
    pub recreate_socket: bool,
}

/// `c` is a clearing `SET_ACTIVITY` command for `app_id`, `pid` and `nonce`.
pub open spec fn is_clearing(c: ActivityCmd, app_id: Option<Seq<char>>, pid: u64, nonce: Seq<char>) -> bool {
    &&& c.cmd@ == "SET_ACTIVITY"@
    &&& c.args matches Some(a) && a.pid == Some(pid) && a.activity is None && a.code is None
    &&& match app_id {
        Some(id) => c.application_id matches Some(x) && x@ == id,
        None => c.application_id is None,
    }
    &&& c.nonce@ == nonce
    &&& c.data is None
    &&& c.evt is None
}

/// `c` is the empty-activity command for `pid`: no name, no nonce, only the
/// process id.
pub open spec fn is_empty_for(c: ActivityCmd, pid: u64) -> bool {
    &&& c.cmd@.len() == 0
    &&& c.args matches Some(a) && a.pid == Some(pid) && a.activity is None && a.code is None
    &&& c.application_id is None
    &&& c.nonce@.len() == 0
    &&& c.data is None
    &&& c.evt is None
}

/// `reply` is the frame of `text` under `op`, present when the text fits
/// a frame.
pub open spec fn replies(reply: Option<Vec<u8>>, op: PacketType, text: Seq<char>) -> bool {
    &&& reply is Some <==> encode_utf8(text).len() <= u32::MAX
    &&& reply matches Some(b) ==> b@ == frame_bytes(op, encode_utf8(text))
}

/// Frames `text` under `op` when it fits a frame.
pub fn frame_text(op: PacketType, text: String) -> (r: Option<Vec<u8>>)
    ensures
        replies(r, op, text@),
{
    if text.as_str().as_bytes().len() as u64 <= u32::MAX as u64 {
        Some(encode(op, text))
    } else {
        None
    }
}

/// The command that clears the connection's activity when it ends badly.
pub fn send_empty(pid: u64) -> (r: ActivityCmd)
    ensures
        is_empty_for(r, pid),
{
    ActivityCmd {
        args: Some(ActivityCmdArgs { activity: None, code: None, pid: Some(pid) }),
        ..ActivityCmd::empty()
    }
}

impl IpcAction {
    pub open spec fn is_nothing(self) -> bool {
        self.reply is None && self.post is None && !self.close && !self.recreate_socket
    }

    fn nothing() -> (r: IpcAction)
        ensures
            r.is_nothing(),
    {
        IpcAction { reply: None, post: None, close: false, recreate_socket: false }
    }
}

impl ConnectionState {
    /// A connection that has not shaken hands yet.
    pub fn new() -> (r: ConnectionState)
        ensures
            !r.did_handshake,
            r.client_id@.len() == 0,
            r.pid == 0,
            r.nonce@.len() == 0,
    {
        ConnectionState { did_handshake: false, client_id: String::new(), pid: 0, nonce: String::new() }
    }

    /// Handles one message with opcode `op` and text `message`; `handshake`
    /// and `command` are the message read as a handshake and as a command,
    /// when it is one.
    ///
    /// Before a handshake only a version-1 handshake is taken; it is answered
    /// with the ready payload. Afterwards a command with arguments is stamped
    /// with the client id and posted, any other frame posts the empty
    /// activity, a ping is answered with a pong of the same text, and a close
    /// posts a clearing command, resets the state and ends the connection.
    pub fn step(
        &mut self,
        op: PacketType,
        message: String,
        handshake: Option<Handshake>,
        command: Option<ActivityCmd>,
    ) -> (r: IpcAction)
        ensures
            op == PacketType::Handshake ==> (if handshake matches Some(h) && h.v == 1 {
                &&& final(self).did_handshake
                &&& final(self).client_id == handshake->Some_0.client_id
                &&& final(self).pid == old(self).pid && final(self).nonce == old(self).nonce
                &&& replies(r.reply, PacketType::Frame, ready_payload())
                &&& r.post is None && !r.close && !r.recreate_socket
            } else {
                *final(self) == *old(self) && r.is_nothing()
            }),
            op != PacketType::Handshake && !old(self).did_handshake ==> *final(self) == *old(self)
                && r.is_nothing(),
            op == PacketType::Frame && old(self).did_handshake ==> (if command matches Some(c)
                && c.args is Some {
                &&& r.post == Some(
                    ActivityCmd { application_id: Some(old(self).client_id), ..command->Some_0 },
                )
                &&& final(self).pid == match command->Some_0.args->Some_0.pid {
                    Some(p) => p,
                    None => 0,
                }
                &&& final(self).nonce == command->Some_0.nonce
                &&& final(self).did_handshake && final(self).client_id == old(self).client_id
                &&& r.reply is None && !r.close && !r.recreate_socket
            } else {
                &&& *final(self) == *old(self)
                &&& r.post matches Some(c) && is_empty_for(c, old(self).pid)
                &&& r.reply is None && !r.close && !r.recreate_socket
            }),
            op == PacketType::Ping && old(self).did_handshake ==> *final(self) == *old(self)
                && replies(r.reply, PacketType::Pong, message@) && r.post is None && !r.close
                && !r.recreate_socket,
            op == PacketType::Pong && old(self).did_handshake ==> *final(self) == *old(self)
                && r.is_nothing(),
            op == PacketType::Close && old(self).did_handshake ==> ({
                &&& r.post matches Some(c) && is_clearing(
                    c,
                    Some(old(self).client_id@),
                    old(self).pid,
                    old(self).nonce@,
                )
                &&& !final(self).did_handshake && final(self).client_id@.len() == 0
                    && final(self).pid == 0
                &&& r.reply is None && r.close && r.recreate_socket
            }),
    {
        match op {
            PacketType::Handshake => {
                match handshake {
                    Some(h) => {
                        if h.v != 1 {
                            return IpcAction::nothing();
                        }
                        self.did_handshake = true;
                        self.client_id = h.client_id;
                        let reply = frame_text(PacketType::Frame, connection_resp());
                        IpcAction { reply, post: None, close: false, recreate_socket: false }
                    },
                    None => IpcAction::nothing(),
                }
            },
            _ => {
                if !self.did_handshake {
                    return IpcAction::nothing();
                }
                match op {
                    PacketType::Frame => match command {
                        Some(c) => match &c.args {
                            Some(args) => {
                                self.pid = match args.pid {
                                    Some(p) => p,
                                    None => 0,
                                };
                                self.nonce = c.nonce.clone();
                                let posted = ActivityCmd { application_id: Some(self.client_id.clone()), ..c };
                                IpcAction { reply: None, post: Some(posted), close: false, recreate_socket: false }
                            },
                            None => IpcAction {
                                reply: None,
                                post: Some(send_empty(self.pid)),
                                close: false,
                                recreate_socket: false,
                            },
                        },
                        None => IpcAction {
                            reply: None,
                            post: Some(send_empty(self.pid)),
                            close: false,
                            recreate_socket: false,
                        },
                    },
                    PacketType::Ping => IpcAction {
                        reply: frame_text(PacketType::Pong, message),
                        post: None,
                        close: false,
                        recreate_socket: false,
                    },
                    PacketType::Close => {
                        let clearing = ActivityCmd {
                            application_id: Some(self.client_id.clone()),
                            cmd: "SET_ACTIVITY".to_string(),
                            data: None,
                            evt: None,
                            args: Some(ActivityCmdArgs { pid: Some(self.pid), activity: None, code: None }),
                            nonce: self.nonce.clone(),
                        };
                        self.did_handshake = false;
                        self.client_id = String::new();
                        self.pid = 0;
                        IpcAction { reply: None, post: Some(clearing), close: true, recreate_socket: true }
                    },
                    _ => IpcAction::nothing(),
                }
            },
        }
    }

    /// A message whose body is not text: after the handshake a frame posts the
    /// empty activity, as any malformed frame does; anything else is dropped.
    pub fn on_undecodable(&mut self, op: PacketType) -> (r: IpcAction)
        ensures
            *final(self) == *old(self),
            op == PacketType::Frame && old(self).did_handshake ==> (r.post matches Some(c)
                && is_empty_for(c, old(self).pid)) && r.reply is None && !r.close
                && !r.recreate_socket,
            !(op == PacketType::Frame && old(self).did_handshake) ==> r.is_nothing(),
    {
        match op {
            PacketType::Frame => if self.did_handshake {
                IpcAction { reply: None, post: Some(send_empty(self.pid)), close: false, recreate_socket: false }
            } else {
                IpcAction::nothing()
            },
            _ => IpcAction::nothing(),
        }
    }

    /// A header or body could not be read: the activity is cleared and the
    /// connection ends.
    pub fn on_read_error(&mut self) -> (r: IpcAction)
        ensures
            *final(self) == *old(self),
            r.post matches Some(c) && is_empty_for(c, old(self).pid),
            r.reply is None && r.close && !r.recreate_socket,
    {
        IpcAction { reply: None, post: Some(send_empty(self.pid)), close: true, recreate_socket: false }
    }
}

/// The directory the IPC socket goes in: the first non-empty of the runtime,
/// `TMPDIR`, `TMP` and `TEMP` directories, else `/tmp`.
pub open spec fn socket_dir(xdg: Seq<char>, tmpdir: Seq<char>, tmp: Seq<char>, temp: Seq<char>) -> Seq<char> {
    if xdg.len() > 0 {
        xdg
    } else if tmpdir.len() > 0 {
        tmpdir
    } else if tmp.len() > 0 {
        tmp
    } else if temp.len() > 0 {
        temp
    } else {
        "/tmp"@
    }
}

/// `d` with a `/` at its end.
pub open spec fn with_slash(d: Seq<char>) -> Seq<char> {
    if d.len() > 0 && d.last() == '/' {
        d
    } else {
        d.push('/')
    }
}

/// The base path of the IPC socket, before its `-N` suffix.
pub open spec fn spec_socket_path(xdg: Seq<char>, tmpdir: Seq<char>, tmp: Seq<char>, temp: Seq<char>) -> Seq<char> {
    with_slash(socket_dir(xdg, tmpdir, tmp, temp)) + "discord-ipc"@
}

/// The base path of the IPC socket, from the values of `XDG_RUNTIME_DIR`,
/// `TMPDIR`, `TMP` and `TEMP` (empty when unset).
pub fn get_socket_path(xdg: &str, tmpdir: &str, tmp: &str, temp: &str) -> (r: String)
    ensures
        r@ == spec_socket_path(xdg@, tmpdir@, tmp@, temp@),
{
    let dir: &str = if !xdg.is_empty() {
        xdg
    } else if !tmpdir.is_empty() {
        tmpdir
    } else if !tmp.is_empty() {
        tmp
    } else if !temp.is_empty() {
        temp
    } else {
        "/tmp"
    };
    let cs = chars_of(dir);
    let mut out = String::new();
    push_str(&mut out, dir);
    if !(cs.len() > 0 && cs[cs.len() - 1] == '/') {
        crate::text::push_char(&mut out, '/');
    }
    push_str(&mut out, "discord-ipc");
    proof {
        assert(out@ =~= spec_socket_path(xdg@, tmpdir@, tmp@, temp@));
    }
    out
}

/// The number of suffixes tried before binding gives up.
pub const SOCKET_TRIES: u8 = 10;

/// The path of the socket with suffix `n`.
pub fn socket_name(base: &str, n: u8) -> (r: String)
    ensures
        r@ == base@ + "-"@ + decimal(n as nat),
{
    let mut out = String::new();
    push_str(&mut out, base);
    push_str(&mut out, "-");
    push_decimal(&mut out, n as u64);
    out
}

/// The suffix to try after `n` failed, or none once ten have failed.
pub fn next_suffix(n: u8) -> (r: Option<u8>)
    ensures
        n + 1 < SOCKET_TRIES ==> r == Some((n + 1) as u8),
        n + 1 >= SOCKET_TRIES ==> r is None,
{
    if n < SOCKET_TRIES - 1 {
        Some(n + 1)
    } else {
        None
    }
}

} // verus!
