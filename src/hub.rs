//! The fan-out hub: decides, for each upstream event, which frames go to the
//! subscribers, and keeps track of which source owns the presence slot.
use vstd::prelude::*;
use crate::cmd::{Activity, ActivityCmd, ActivityCmdArgs, ActivityPayload, Assets, ButtonValue, Metadata, TimeoutValue, Timestamps, cutoff_of};
use crate::process::join;
use crate::detection::DetectableActivity;
use crate::json::{decimal, push_decimal, push_quoted, quoted};
use crate::text::{push_char, push_str};

verus! {

/// What the hub hands its subscribers.
#[derive(Debug)]
pub enum Outbound {
    /// A frame rendered here.
    Text(String),
    /// An activity to be sent as an activity frame.
    Payload(ActivityPayload),
    /// A command to be sent as it is.
    Command(ActivityCmd),
    /// The arguments of an activity command, sent on their own.
    Args(ActivityCmdArgs),
}

/// The clearing frame for the source `socket` and process `pid`.
pub open spec fn empty_frame(pid: nat, socket: Seq<char>) -> Seq<char> {
    "{\"activity\":null,\"pid\":"@ + decimal(pid) + ",\"socketId\":"@ + quoted(socket) + "}"@
}

/// The start time written in an activity frame: the detection time, or 0.
pub open spec fn start_text(t: Option<String>) -> Seq<char> {
    match t {
        Some(s) => s@,
        None => "0"@,
    }
}

/// The activity frame of a detected application.
pub open spec fn activity_frame(a: DetectableActivity) -> Seq<char> {
    "{\"activity\":{\"application_id\":"@ + quoted(a.id@) + ",\"name\":"@ + quoted(a.name@)
        + ",\"timestamps\":{\"start\":"@ + start_text(a.timestamp)
        + "},\"type\":0,\"metadata\":{},\"flags\":0},\"pid\":"@ + decimal(pid_of(a.pid))
        + ",\"socketId\":"@ + quoted(a.id@) + "}"@
}

/// A missing process id counts as 0.
pub open spec fn pid_of(p: Option<u64>) -> nat {
    match p {
        Some(v) => v as nat,
        None => 0,
    }
}

/// Renders the clearing frame for `socket` and `pid`.
pub fn empty_activity(pid: u64, socket_id: &str) -> (r: String)
    ensures
        r@ == empty_frame(pid as nat, socket_id@),
{
    let mut out = String::new();
    push_str(&mut out, "{\"activity\":null,\"pid\":");
    push_decimal(&mut out, pid);
    push_str(&mut out, ",\"socketId\":");
    push_quoted(&mut out, socket_id);
    push_str(&mut out, "}");
    assert(out@ =~= empty_frame(pid as nat, socket_id@));
    out
}

/// Renders the activity frame of a detected application.
pub fn render_activity(a: &DetectableActivity) -> (r: String)
    ensures
        r@ == activity_frame(*a),
{
    let mut out = String::new();
    push_str(&mut out, "{\"activity\":{\"application_id\":");
    push_quoted(&mut out, a.id.as_str());
    push_str(&mut out, ",\"name\":");
    push_quoted(&mut out, a.name.as_str());
    push_str(&mut out, ",\"timestamps\":{\"start\":");
    match &a.timestamp {
        Some(t) => push_str(&mut out, t.as_str()),
        None => push_str(&mut out, "0"),
    }
    push_str(&mut out, "},\"type\":0,\"metadata\":{},\"flags\":0},\"pid\":");
    let pid: u64 = match a.pid {
        Some(p) => p,
        None => 0,
    };
    push_decimal(&mut out, pid);
    push_str(&mut out, ",\"socketId\":");
    push_quoted(&mut out, a.id.as_str());
    push_str(&mut out, "}");
    assert(out@ =~= activity_frame(*a));
    out
}

/// `"key":value`.
pub open spec fn member(k: Seq<char>, v: Seq<char>) -> Seq<char> {
    quoted(k) + ":"@ + v
}

/// A JSON object of the given members.
pub open spec fn obj(ms: Seq<Seq<char>>) -> Seq<char> {
    "{"@ + join(ms, ',') + "}"@
}

/// A JSON array of the given items.
pub open spec fn arr(ms: Seq<Seq<char>>) -> Seq<char> {
    "["@ + join(ms, ',') + "]"@
}

/// The decimal text of a signed number.
pub open spec fn signed(v: i64) -> Seq<char> {
    if v < 0 {
        "-"@ + decimal((-v) as nat)
    } else {
        decimal(v as nat)
    }
}

/// A text member, left out when absent.
pub open spec fn opt_text(k: Seq<char>, o: Option<String>) -> Seq<Seq<char>> {
    match o {
        Some(s) => seq![member(k, quoted(s@))],
        None => Seq::empty(),
    }
}

/// A time member, left out when absent.
pub open spec fn opt_time(k: Seq<char>, o: Option<TimeoutValue>) -> Seq<Seq<char>> {
    match o {
        Some(v) => seq![member(k, signed(v.0))],
        None => Seq::empty(),
    }
}

/// An absent text counts as empty.
pub open spec fn or_empty(o: Option<String>) -> Seq<char> {
    match o {
        Some(s) => s@,
        None => Seq::empty(),
    }
}

/// The `timestamps` of an IPC activity frame: `{}` when absent.
pub open spec fn times_text(t: Option<Timestamps>) -> Seq<char> {
    match t {
        Some(t) => obj(opt_time("start"@, t.start) + opt_time("end"@, t.end)),
        None => "{}"@,
    }
}

/// The `assets` of an IPC activity frame: `null` when absent.
pub open spec fn assets_text(a: Option<Assets>) -> Seq<char> {
    match a {
        Some(x) => obj(
            opt_text("large_image"@, x.large_image) + opt_text("large_text"@, x.large_text) + opt_text(
                "small_image"@,
                x.small_image,
            ) + opt_text("small_text"@, x.small_text),
        ),
        None => "null"@,
    }
}

/// One button: a label as text, a link as an object, any other value as its
/// own JSON text.
pub open spec fn button_text(b: ButtonValue) -> Seq<char> {
    match b {
        ButtonValue::Label(s) => quoted(s@),
        ButtonValue::Link(l) => obj(seq![member("label"@, quoted(l.label@)), member("url"@, quoted(l.url@))]),
        ButtonValue::Other(t) => t@,
    }
}

/// The `buttons` of an IPC activity frame: `[]` when absent.
pub open spec fn buttons_text(bs: Option<Vec<ButtonValue>>) -> Seq<char> {
    match bs {
        Some(v) => arr(v@.map_values(|b: ButtonValue| button_text(b))),
        None => "[]"@,
    }
}

/// The `button_urls` of an IPC activity frame: `[]` when absent.
pub open spec fn urls_text(m: Option<Metadata>) -> Seq<char> {
    match m {
        Some(md) => match md.button_urls {
            Some(u) => arr(u@.map_values(|s: String| quoted(s@))),
            None => "[]"@,
        },
        None => "[]"@,
    }
}

/// The activity of an IPC activity frame.
pub open spec fn payload_activity(a: Activity) -> Seq<char> {
    obj(
        seq![member("application_id"@, quoted(or_empty(a.application_id)))] + opt_text("name"@, a.name)
            + seq![
            member("timestamps"@, times_text(a.timestamps)),
            member("assets"@, assets_text(a.assets)),
            member("details"@, quoted(or_empty(a.details))),
            member("state"@, quoted(or_empty(a.state))),
            member("type"@, "0"@),
            member("buttons"@, buttons_text(a.buttons)),
            member("metadata"@, obj(seq![member("button_urls"@, urls_text(a.metadata))])),
            member("flags"@, "0"@),
        ],
    )
}

/// The frame subscribers receive for an IPC activity.
pub open spec fn payload_frame(p: ActivityPayload) -> Seq<char> {
    obj(
        seq![
            member(
                "activity"@,
                match p.activity {
                    Some(a) => payload_activity(a),
                    None => "null"@,
                },
            ),
            member("pid"@, decimal(pid_of(p.pid))),
            member(
                "socketId"@,
                quoted(
                    match p.socket_id {
                        Some(s) => s@,
                        None => "0"@,
                    },
                ),
            ),
        ],
    )
}

/// The views of a list of texts.
pub open spec fn views(v: Seq<String>) -> Seq<Seq<char>> {
    v.map_values(|s: String| s@)
}

fn push_member(items: &mut Vec<String>, k: &str, v: String)
    ensures
        views(final(items)@) == views(old(items)@).push(member(k@, v@)),
{
    let mut m = String::new();
    push_quoted(&mut m, k);
    push_str(&mut m, ":");
    push_str(&mut m, v.as_str());
    items.push(m);
    assert(views(final(items)@) =~= views(old(items)@).push(member(k@, v@)));
}

fn push_opt_text(items: &mut Vec<String>, k: &str, o: &Option<String>)
    ensures
        views(final(items)@) == views(old(items)@) + opt_text(k@, *o),
{
    match o {
        Some(s) => {
            push_member(items, k, quoted_text(s.as_str()));
        },
        None => {},
    }
    assert(views(final(items)@) =~= views(old(items)@) + opt_text(k@, *o));
}

fn push_opt_time(items: &mut Vec<String>, k: &str, o: Option<TimeoutValue>)
    ensures
        views(final(items)@) == views(old(items)@) + opt_time(k@, o),
{
    match o {
        Some(v) => {
            let mut t = String::new();
            push_signed(&mut t, v.0);
            push_member(items, k, t);
        },
        None => {},
    }
    assert(views(final(items)@) =~= views(old(items)@) + opt_time(k@, o));
}

fn push_signed(out: &mut String, v: i64)
    ensures
        final(out)@ == old(out)@ + signed(v),
{
    if v < 0 {
        push_str(out, "-");
        push_decimal(out, (-(v as i128)) as u64);
        assert(final(out)@ =~= old(out)@ + signed(v));
    } else {
        push_decimal(out, v as u64);
    }
}

fn quoted_text(s: &str) -> (r: String)
    ensures
        r@ == quoted(s@),
{
    let mut o = String::new();
    push_quoted(&mut o, s);
    o
}

/// The items joined by commas between `open` and `close`.
fn enclosed(open: char, items: &Vec<String>, close: char) -> (r: String)
    ensures
        r@ == seq![open] + join(views(items@), ',') + seq![close],
{
    let mut out = String::new();
    push_char(&mut out, open);
    let ghost start = out@;
    let mut i: usize = 0;
    while i < items.len()
        invariant
            i <= items@.len(),
            out@ == start + join(views(items@).take(i as int), ','),
        decreases items@.len() - i,
    {
        let ghost vs = views(items@).take(i + 1);
        assert(vs.drop_last() =~= views(items@).take(i as int));
        if i > 0 {
            push_char(&mut out, ',');
        }
        push_str(&mut out, items[i].as_str());
        i = i + 1;
        assert(out@ =~= start + join(views(items@).take(i as int), ','));
    }
    assert(views(items@).take(i as int) =~= views(items@));
    push_char(&mut out, close);
    out
}

fn object_text(items: &Vec<String>) -> (r: String)
    ensures
        r@ == obj(views(items@)),
{
    let r = enclosed('{', items, '}');
    proof {
        reveal_strlit("{");
        reveal_strlit("}");
    }
    assert(r@ =~= obj(views(items@)));
    r
}

fn array_text(items: &Vec<String>) -> (r: String)
    ensures
        r@ == arr(views(items@)),
{
    let r = enclosed('[', items, ']');
    proof {
        reveal_strlit("[");
        reveal_strlit("]");
    }
    assert(r@ =~= arr(views(items@)));
    r
}

fn render_times(t: Option<Timestamps>) -> (r: String)
    ensures
        r@ == times_text(t),
{
    match t {
        Some(t) => {
            let mut items: Vec<String> = Vec::new();
            assert(views(items@) =~= Seq::<Seq<char>>::empty());
            push_opt_time(&mut items, "start", t.start);
            push_opt_time(&mut items, "end", t.end);
            assert(views(items@) =~= opt_time("start"@, t.start) + opt_time("end"@, t.end));
            object_text(&items)
        },
        None => "{}".to_string(),
    }
}

fn render_assets(a: &Option<Assets>) -> (r: String)
    ensures
        r@ == assets_text(*a),
{
    match a {
        Some(x) => {
            let mut items: Vec<String> = Vec::new();
            assert(views(items@) =~= Seq::<Seq<char>>::empty());
            push_opt_text(&mut items, "large_image", &x.large_image);
            push_opt_text(&mut items, "large_text", &x.large_text);
            push_opt_text(&mut items, "small_image", &x.small_image);
            push_opt_text(&mut items, "small_text", &x.small_text);
            assert(views(items@) =~= opt_text("large_image"@, x.large_image) + opt_text(
                "large_text"@,
                x.large_text,
            ) + opt_text("small_image"@, x.small_image) + opt_text("small_text"@, x.small_text));
            object_text(&items)
        },
        None => "null".to_string(),
    }
}

fn render_button(b: &ButtonValue) -> (r: String)
    ensures
        r@ == button_text(*b),
{
    match b {
        ButtonValue::Label(s) => quoted_text(s.as_str()),
        ButtonValue::Link(l) => {
            let mut items: Vec<String> = Vec::new();
            push_member(&mut items, "label", quoted_text(l.label.as_str()));
            push_member(&mut items, "url", quoted_text(l.url.as_str()));
            assert(views(items@) =~= seq![member("label"@, quoted(l.label@)), member("url"@, quoted(l.url@))]);
            object_text(&items)
        },
        ButtonValue::Other(t) => t.clone(),
    }
}

fn render_buttons(bs: &Option<Vec<ButtonValue>>) -> (r: String)
    ensures
        r@ == buttons_text(*bs),
{
    match bs {
        Some(v) => {
            let mut items: Vec<String> = Vec::new();
            let mut i: usize = 0;
            while i < v.len()
                invariant
                    i <= v@.len(),
                    views(items@) == v@.take(i as int).map_values(|b: ButtonValue| button_text(b)),
                decreases v@.len() - i,
            {
                let t = render_button(&v[i]);
                let ghost before = items@;
                items.push(t);
                assert(views(items@) =~= views(before).push(button_text(v@[i as int])));
                assert(v@.take(i + 1).map_values(|b: ButtonValue| button_text(b)) =~= v@.take(
                    i as int,
                ).map_values(|b: ButtonValue| button_text(b)).push(button_text(v@[i as int])));
                i = i + 1;
            }
            assert(v@.take(i as int) =~= v@);
            array_text(&items)
        },
        None => "[]".to_string(),
    }
}

fn render_urls(m: &Option<Metadata>) -> (r: String)
    ensures
        r@ == urls_text(*m),
{
    match m {
        Some(md) => match &md.button_urls {
            Some(u) => {
                let mut items: Vec<String> = Vec::new();
                let mut i: usize = 0;
                while i < u.len()
                    invariant
                        i <= u@.len(),
                        views(items@) == u@.take(i as int).map_values(|s: String| quoted(s@)),
                    decreases u@.len() - i,
                {
                    let t = quoted_text(u[i].as_str());
                    let ghost before = items@;
                    items.push(t);
                    assert(views(items@) =~= views(before).push(quoted(u@[i as int]@)));
                    assert(u@.take(i + 1).map_values(|s: String| quoted(s@)) =~= u@.take(
                        i as int,
                    ).map_values(|s: String| quoted(s@)).push(quoted(u@[i as int]@)));
                    i = i + 1;
                }
                assert(u@.take(i as int) =~= u@);
                array_text(&items)
            },
            None => "[]".to_string(),
        },
        None => "[]".to_string(),
    }
}

fn text_or_empty(o: &Option<String>) -> (r: String)
    ensures
        r@ == or_empty(*o),
{
    match o {
        Some(s) => s.clone(),
        None => String::new(),
    }
}

fn render_payload_activity(a: &Activity) -> (r: String)
    ensures
        r@ == payload_activity(*a),
{
    let mut items: Vec<String> = Vec::new();
    let ghost e = views(items@);
    push_member(&mut items, "application_id", quoted_text(text_or_empty(&a.application_id).as_str()));
    push_opt_text(&mut items, "name", &a.name);
    let ghost head = views(items@);
    push_member(&mut items, "timestamps", render_times(a.timestamps));
    push_member(&mut items, "assets", render_assets(&a.assets));
    push_member(&mut items, "details", quoted_text(text_or_empty(&a.details).as_str()));
    push_member(&mut items, "state", quoted_text(text_or_empty(&a.state).as_str()));
    push_member(&mut items, "type", "0".to_string());
    push_member(&mut items, "buttons", render_buttons(&a.buttons));
    let mut meta: Vec<String> = Vec::new();
    push_member(&mut meta, "button_urls", render_urls(&a.metadata));
    assert(views(meta@) =~= seq![member("button_urls"@, urls_text(a.metadata))]);
    push_member(&mut items, "metadata", object_text(&meta));
    push_member(&mut items, "flags", "0".to_string());
    assert(e =~= Seq::<Seq<char>>::empty());
    assert(head =~= seq![member("application_id"@, quoted(or_empty(a.application_id)))] + opt_text(
        "name"@,
        a.name,
    ));
    assert(views(items@) =~= seq![member("application_id"@, quoted(or_empty(a.application_id)))]
        + opt_text("name"@, a.name) + seq![
        member("timestamps"@, times_text(a.timestamps)),
        member("assets"@, assets_text(a.assets)),
        member("details"@, quoted(or_empty(a.details))),
        member("state"@, quoted(or_empty(a.state))),
        member("type"@, "0"@),
        member("buttons"@, buttons_text(a.buttons)),
        member("metadata"@, obj(seq![member("button_urls"@, urls_text(a.metadata))])),
        member("flags"@, "0"@),
    ]);
    object_text(&items)
}

/// Renders the frame subscribers receive for an IPC activity.
pub fn render_payload(p: &ActivityPayload) -> (r: String)
    ensures
        r@ == payload_frame(*p),
{
    let mut items: Vec<String> = Vec::new();
    let activity = match &p.activity {
        Some(a) => render_payload_activity(a),
        None => "null".to_string(),
    };
    push_member(&mut items, "activity", activity);
    let mut pid = String::new();
    push_decimal(
        &mut pid,
        match p.pid {
            Some(v) => v,
            None => 0,
        },
    );
    push_member(&mut items, "pid", pid);
    let sid = match &p.socket_id {
        Some(s) => quoted_text(s.as_str()),
        None => quoted_text("0"),
    };
    push_member(&mut items, "socketId", sid);
    assert(views(items@) =~= seq![
        member(
            "activity"@,
            match p.activity {
                Some(a) => payload_activity(a),
                None => "null"@,
            },
        ),
        member("pid"@, decimal(pid_of(p.pid))),
        member(
            "socketId"@,
            quoted(
                match p.socket_id {
                    Some(s) => s@,
                    None => "0"@,
                },
            ),
        ),
    ]);
    object_text(&items)
}

/// The arbitration state of the hub.
pub struct ClientConnector {
    pub port: u16,
    /// The payload every subscriber receives when it connects.
    pub data_on_connect: String,
    /// The process id of the last application the scanner reported.
    pub last_pid: Option<u64>,
    /// The id of the application that owns the presence slot.
    pub active_socket: Option<String>,
}

/// The frames that a scanner event produces, as texts.
pub open spec fn process_frames(
    active: Option<String>,
    last_pid: Option<u64>,
    a: DetectableActivity,
    subscribers: bool,
) -> Seq<Seq<char>> {
    if !subscribers {
        Seq::empty()
    } else if a.spec_is_sentinel() {
        match active {
            Some(s) => seq![empty_frame(pid_of(last_pid), s@)],
            None => Seq::empty(),
        }
    } else if owns(active, a.id) {
        Seq::empty()
    } else {
        match active {
            Some(s) => seq![empty_frame(pid_of(last_pid), s@), activity_frame(a)],
            None => seq![activity_frame(a)],
        }
    }
}

/// The owner of the presence slot after a scanner event.
pub open spec fn next_active(active: Option<String>, a: DetectableActivity, subscribers: bool) -> Option<
    String,
> {
    if !subscribers {
        active
    } else if a.spec_is_sentinel() {
        None
    } else if owns(active, a.id) {
        active
    } else {
        Some(a.id)
    }
}

/// The last process id after a scanner event.
pub open spec fn next_last_pid(
    active: Option<String>,
    last_pid: Option<u64>,
    a: DetectableActivity,
    subscribers: bool,
) -> Option<u64> {
    if !subscribers || a.spec_is_sentinel() || owns(active, a.id) {
        last_pid
    } else {
        a.pid
    }
}

/// The texts of frames rendered here.
pub open spec fn texts(out: Seq<Outbound>, frames: Seq<Seq<char>>) -> bool {
    &&& out.len() == frames.len()
    &&& forall|i: int| 0 <= i < out.len() ==> ((#[trigger] out[i]) matches Outbound::Text(t) && t@ == frames[i])
}

/// The slot is owned by the application `id`.
pub open spec fn owns(active: Option<String>, id: String) -> bool {
    active matches Some(s) && s@ == id@
}

fn owned_by(a: &Option<String>, b: &String) -> (r: bool)
    ensures
        r == owns(*a, *b),
{
    match a {
        Some(s) => s.eq(b),
        None => false,
    }
}

impl ClientConnector {
    /// A hub on `port` that greets subscribers with `data_on_connect`, with no
    /// owner yet.
    pub fn new(port: u16, data_on_connect: String) -> (r: ClientConnector)
        ensures
            r.port == port,
            r.data_on_connect == data_on_connect,
            r.last_pid is None,
            r.active_socket is None,
    {
        ClientConnector { port, data_on_connect, last_pid: None, active_socket: None }
    }

    /// Handles a scanner event: clears the previous owner when a different
    /// application (or none) is reported, then sends the new activity.
    pub fn on_process_event(&mut self, a: &DetectableActivity, subscribers: bool) -> (r: Vec<Outbound>)
        ensures
            texts(r@, process_frames(old(self).active_socket, old(self).last_pid, *a, subscribers)),
            final(self).active_socket == next_active(old(self).active_socket, *a, subscribers),
            final(self).last_pid == next_last_pid(
                old(self).active_socket,
                old(self).last_pid,
                *a,
                subscribers,
            ),
            final(self).port == old(self).port,
            final(self).data_on_connect == old(self).data_on_connect,
    {
        let mut out: Vec<Outbound> = Vec::new();
        if !subscribers {
            return out;
        }
        let last: u64 = match self.last_pid {
            Some(p) => p,
            None => 0,
        };
        if is_sentinel(a) {
            match self.active_socket.take() {
                Some(s) => {
                    out.push(Outbound::Text(empty_activity(last, s.as_str())));
                },
                None => {},
            }
            return out;
        }
        if owned_by(&self.active_socket, &a.id) {
            return out;
        }
        match &self.active_socket {
            Some(s) => {
                out.push(Outbound::Text(empty_activity(last, s.as_str())));
            },
            None => {},
        }
        out.push(Outbound::Text(render_activity(a)));
        self.last_pid = a.pid;
        self.active_socket = Some(a.id.clone());
        out
    }
}

/// What an IPC command, once normalised as `c`, sends: nothing without
/// arguments, a clearing frame for source `0` without an activity, else the
/// activity stamped with the command's application id.
pub open spec fn ipc_out(c: ActivityCmd, last_pid: Option<u64>, out: Seq<Outbound>) -> bool {
    match c.args {
        None => out.len() == 0,
        Some(args) => match args.activity {
            None => texts(out, seq![empty_frame(pid_of(last_pid), "0"@)]),
            Some(x) => out.len() == 1 && out[0] is Payload && ({
                let p = out[0]->Payload_0;
                &&& p.pid == Some(pid_of(args.pid) as u64)
                &&& p.socket_id is Some && p.socket_id->Some_0@ == "0"@
                &&& p.activity == Some(Activity { application_id: c.application_id, ..x })
            }),
        },
    }
}

/// How an IPC command, once normalised as `c`, moves the slot: an activity
/// hands it to the command's application (kept when the command names none)
/// and records its process id; a clear frees it when that application owns it.
pub open spec fn ipc_next(c: ActivityCmd, old: ClientConnector, new: ClientConnector) -> bool {
    &&& new.port == old.port
    &&& new.data_on_connect == old.data_on_connect
    &&& match c.args {
        None => new.active_socket == old.active_socket && new.last_pid == old.last_pid,
        Some(args) => match args.activity {
            None => new.last_pid == old.last_pid && new.active_socket == if c.application_id is Some
                && owns(old.active_socket, c.application_id->Some_0) {
                None::<String>
            } else {
                old.active_socket
            },
            Some(_) => new.last_pid == Some(pid_of(args.pid) as u64) && new.active_socket == match c.application_id {
                Some(id) => Some(id),
                None => old.active_socket,
            },
        },
    }
}

/// What an intake command sends: any command but `SET_ACTIVITY` as it is,
/// else, with its times in milliseconds as `c`, its arguments.
pub open spec fn ws_out(orig: ActivityCmd, c: ActivityCmd, out: Seq<Outbound>) -> bool {
    if orig.cmd@ != "SET_ACTIVITY"@ {
        out.len() == 1 && out[0] == Outbound::Command(orig)
    } else {
        match c.args {
            None => out.len() == 0,
            Some(args) => out.len() == 1 && out[0] == Outbound::Args(args),
        }
    }
}

impl ClientConnector {
    /// Handles a command from the native IPC endpoint. An activity makes the
    /// command's application the owner of the presence slot, with its process
    /// id; clearing the owner's activity frees the slot. Times are judged
    /// against a clock reading of `now` seconds.
    pub fn on_ipc_event(&mut self, cmd: ActivityCmd, subscribers: bool, now: i64) -> (r: Vec<Outbound>)
        ensures
            !subscribers ==> r@.len() == 0 && *final(self) == *old(self),
            subscribers ==> exists|c: ActivityCmd|
                ActivityCmd::fixed_at(cmd, c, now) && ipc_out(c, old(self).last_pid, r@)
                    && ipc_next(c, *old(self), *final(self)),
    {
        let mut out: Vec<Outbound> = Vec::new();
        if !subscribers {
            return out;
        }
        let mut cmd = cmd;
        cmd.fix(now);
        let application_id = cmd.application_id;
        match cmd.args {
            None => {},
            Some(args) => match args.activity {
                None => {
                    let last: u64 = match self.last_pid {
                        Some(p) => p,
                        None => 0,
                    };
                    let zero = "0".to_string();
                    out.push(Outbound::Text(empty_activity(last, zero.as_str())));
                    match &application_id {
                        Some(id) => {
                            if owned_by(&self.active_socket, id) {
                                self.active_socket = None;
                            }
                        },
                        None => {},
                    }
                },
                Some(x) => {
                    let pid: u64 = match args.pid {
                        Some(p) => p,
                        None => 0,
                    };
                    match &application_id {
                        Some(id) => {
                            self.active_socket = Some(id.clone());
                        },
                        None => {},
                    }
                    self.last_pid = Some(pid);
                    let activity = Activity { application_id, ..x };
                    out.push(
                        Outbound::Payload(
                            ActivityPayload {
                                activity: Some(activity),
                                pid: Some(pid),
                                socket_id: Some("0".to_string()),
                            },
                        ),
                    );
                },
            },
        }
        out
    }

    /// Handles a command from the browser intake; times are judged against a
    /// clock reading of `now` seconds.
    pub fn on_ws_event(&mut self, cmd: ActivityCmd, subscribers: bool, now: i64) -> (r: Vec<Outbound>)
        ensures
            *final(self) == *old(self),
            !subscribers ==> r@.len() == 0,
            subscribers ==> ws_out(cmd, cmd.spec_fix_timestamps(cutoff_of(now)), r@),
    {
        let mut out: Vec<Outbound> = Vec::new();
        if !subscribers {
            return out;
        }
        let set = "SET_ACTIVITY".to_string();
        if !(cmd.cmd == set) {
            let ghost orig = cmd;
            out.push(Outbound::Command(cmd));
            return out;
        }
        let ghost orig = cmd;
        let mut cmd = cmd;
        cmd.fix_timestamps(now);
        match cmd.args {
            None => {},
            Some(args) => out.push(Outbound::Args(args)),
        }
        assert(ws_out(orig, orig.spec_fix_timestamps(cutoff_of(now)), out@));
        out
    }
}

/// When the scanner reports one application and then a different one, the
/// second report clears the first application's slot and then sends the
/// second application's activity, and nothing else.
pub proof fn lemma_switch_clears_then_sends(
    active: Option<String>,
    last_pid: Option<u64>,
    a: DetectableActivity,
    b: DetectableActivity,
)
    requires
        !a.spec_is_sentinel(),
        !b.spec_is_sentinel(),
        a.id@ != b.id@,
    ensures
        ({
            let act1 = next_active(active, a, true);
            let pid1 = next_last_pid(active, last_pid, a, true);
            process_frames(act1, pid1, b, true) == seq![
                empty_frame(pid_of(pid1), a.id@),
                activity_frame(b),
            ]
        }),
{
}

/// Whoever owns the slot, through the IPC endpoint or the scanner, a scanner
/// report of a different application first clears the owner, then sends the
/// new activity.
pub proof fn lemma_owner_cleared_before_switch(
    active: Option<String>,
    last_pid: Option<u64>,
    b: DetectableActivity,
)
    requires
        active is Some,
        !b.spec_is_sentinel(),
        active->Some_0@ != b.id@,
    ensures
        process_frames(active, last_pid, b, true) == seq![
            empty_frame(pid_of(last_pid), active->Some_0@),
            activity_frame(b),
        ],
{
}

/// A "nothing detected" report clears the slot exactly when it is owned.
pub proof fn lemma_sentinel_clears_iff_owned(
    active: Option<String>,
    last_pid: Option<u64>,
    a: DetectableActivity,
)
    requires
        a.spec_is_sentinel(),
    ensures
        process_frames(active, last_pid, a, true).len() > 0 <==> active is Some,
        active matches Some(s) ==> process_frames(active, last_pid, a, true) == seq![
            empty_frame(pid_of(last_pid), s@),
        ],
        next_active(active, a, true) is None,
{
}

/// Whether `a` is the "nothing detected" entry.
pub fn is_sentinel(a: &DetectableActivity) -> (r: bool)
    ensures
        r == a.spec_is_sentinel(),
{
    let null = "null".to_string();
    a.id == null
}


} // verus!
