//! Decisions of the browser-facing intake: which port to bind, which
//! connections and messages to accept, and what to send for each command.
use vstd::prelude::*;
use crate::cmd::{ActivityCmd, ActivityCmdArgs};
use crate::ipc::is_clearing;
use crate::text::{chars_of, string_of};

verus! {

/// The pieces of `s` between the separators `sep`.
pub open spec fn split(s: Seq<char>, sep: char) -> Seq<Seq<char>>
    decreases s.len(),
{
    if s.len() == 0 {
        seq![Seq::empty()]
    } else {
        let r = split(s.drop_last(), sep);
        if s.last() == sep {
            r.push(Seq::empty())
        } else {
            r.update(r.len() - 1, r.last().push(s.last()))
        }
    }
}

/// A text always splits into at least one piece.
pub proof fn lemma_split_nonempty(s: Seq<char>, sep: char)
    ensures
        split(s, sep).len() > 0,
    decreases s.len(),
{
    if s.len() > 0 {
        lemma_split_nonempty(s.drop_last(), sep);
    }
}

/// The pieces of `cs` between the separators `sep`.
pub fn split_chars(cs: &Vec<char>, sep: char) -> (r: Vec<Vec<char>>)
    ensures
        r@.len() == split(cs@, sep).len(),
        forall|i: int| 0 <= i < r@.len() ==> (#[trigger] r@[i])@ == split(cs@, sep)[i],
{
    let mut r: Vec<Vec<char>> = Vec::new();
    r.push(Vec::new());
    let mut i: usize = 0;
    while i < cs.len()
        invariant
            i <= cs@.len(),
            r@.len() == split(cs@.subrange(0, i as int), sep).len(),
            r@.len() > 0,
            forall|k: int| 0 <= k < r@.len() ==> (#[trigger] r@[k])@ == split(cs@.subrange(0, i as int), sep)[k],
        decreases cs@.len() - i,
    {
        let c = cs[i];
        let ghost prev = split(cs@.subrange(0, i as int), sep);
        proof {
            lemma_split_nonempty(cs@.subrange(0, i as int), sep);
            assert(cs@.subrange(0, i + 1).drop_last() =~= cs@.subrange(0, i as int));
        }
        if c == sep {
            r.push(Vec::new());
        } else {
            let last = r.len() - 1;
            let mut piece = r.remove(last);
            piece.push(c);
            r.push(piece);
        }
        i = i + 1;
        assert forall|k: int| 0 <= k < r@.len() implies (#[trigger] r@[k])@ == split(
            cs@.subrange(0, i as int),
            sep,
        )[k] by {
            if k < prev.len() - 1 {
                assert(r@[k]@ == prev[k]);
            }
        }
    }
    assert(cs@.subrange(0, i as int) =~= cs@);
    r
}

/// The `key=value` pairs of a query, in order; pieces without exactly one
/// `=` are left out.
pub open spec fn query_pairs(pieces: Seq<Seq<char>>) -> Seq<(Seq<char>, Seq<char>)>
    decreases pieces.len(),
{
    if pieces.len() == 0 {
        Seq::empty()
    } else {
        let kv = split(pieces.last(), '=');
        query_pairs(pieces.drop_last()) + if kv.len() == 2 {
            seq![(kv[0], kv[1])]
        } else {
            Seq::empty()
        }
    }
}

/// The parameters of a URI: the pairs of its query, when it holds exactly
/// one `?`.
pub open spec fn url_params(uri: Seq<char>) -> Seq<(Seq<char>, Seq<char>)> {
    let parts = split(uri, '?');
    if parts.len() == 2 {
        query_pairs(split(parts[1], '&'))
    } else {
        Seq::empty()
    }
}

/// The parameters of a URI, in the order they appear.
pub fn get_url_params(uri: String) -> (r: Vec<(String, String)>)
    ensures
        r@.len() == url_params(uri@).len(),
        forall|i: int|
            0 <= i < r@.len() ==> (#[trigger] r@[i]).0@ == url_params(uri@)[i].0 && r@[i].1@
                == url_params(uri@)[i].1,
{
    let mut r: Vec<(String, String)> = Vec::new();
    let cs = chars_of(uri.as_str());
    let parts = split_chars(&cs, '?');
    if parts.len() != 2 {
        return r;
    }
    let pieces = split_chars(&parts[1], '&');
    let ghost sp = split(parts@[1]@, '&');
    let mut i: usize = 0;
    while i < pieces.len()
        invariant
            i <= pieces@.len(),
            pieces@.len() == sp.len(),
            forall|k: int| 0 <= k < pieces@.len() ==> (#[trigger] pieces@[k])@ == sp[k],
            r@.len() == query_pairs(sp.take(i as int)).len(),
            forall|k: int|
                0 <= k < r@.len() ==> (#[trigger] r@[k]).0@ == query_pairs(sp.take(i as int))[k].0
                    && r@[k].1@ == query_pairs(sp.take(i as int))[k].1,
        decreases pieces@.len() - i,
    {
        let kv = split_chars(&pieces[i], '=');
        let ghost before = r@;
        assert(sp.take(i + 1).drop_last() =~= sp.take(i as int));
        if kv.len() == 2 {
            r.push((string_of(&kv[0]), string_of(&kv[1])));
        }
        i = i + 1;
        assert forall|k: int| 0 <= k < r@.len() implies (#[trigger] r@[k]).0@ == query_pairs(
            sp.take(i as int),
        )[k].0 && r@[k].1@ == query_pairs(sp.take(i as int))[k].1 by {
            if k < before.len() {
                assert(r@[k] == before[k]);
            }
        }
    }
    assert(sp.take(i as int) =~= sp);
    r
}

/// The value of the last parameter named `key`, as a map keeps it.
pub open spec fn param(ps: Seq<(Seq<char>, Seq<char>)>, key: Seq<char>) -> Option<Seq<char>>
    decreases ps.len(),
{
    if ps.len() == 0 {
        None
    } else if ps.last().0 == key {
        Some(ps.last().1)
    } else {
        param(ps.drop_last(), key)
    }
}

/// The value of the last parameter named `key`.
pub fn url_param(ps: &Vec<(String, String)>, key: &str) -> (r: Option<String>)
    ensures
        r matches Some(v) ==> param(ps@.map_values(|p: (String, String)| (p.0@, p.1@)), key@) == Some(v@),
        r is None ==> param(ps@.map_values(|p: (String, String)| (p.0@, p.1@)), key@) is None,
{
    let ghost vs = ps@.map_values(|p: (String, String)| (p.0@, p.1@));
    let k = key.to_string();
    let mut i: usize = ps.len();
    assert(vs.take(i as int) =~= vs);
    while i > 0
        invariant
            i <= ps@.len(),
            k@ == key@,
            vs == ps@.map_values(|p: (String, String)| (p.0@, p.1@)),
            param(vs, key@) == param(vs.take(i as int), key@),
        decreases i,
    {
        assert(vs.take(i as int).drop_last() =~= vs.take(i - 1));
        if ps[i - 1].0 == k {
            return Some(ps[i - 1].1.clone());
        }
        i = i - 1;
    }
    assert(vs.take(0) =~= Seq::<(Seq<char>, Seq<char>)>::empty());
    None
}

/// A connection is accepted when it asks for version 1 and JSON encoding;
/// a missing parameter refuses it.
pub open spec fn accepts(ps: Seq<(Seq<char>, Seq<char>)>) -> bool {
    (match param(ps, "v"@) {
        Some(v) => v == "1"@,
        None => false,
    }) && (match param(ps, "encoding"@) {
        Some(e) => e == "json"@,
        None => false,
    })
}

/// Whether a connection to `uri` is accepted.
pub fn accepts_connection(uri: String) -> (r: bool)
    ensures
        r == accepts(url_params(uri@)),
{
    let ps = get_url_params(uri);
    let ghost vs = ps@.map_values(|p: (String, String)| (p.0@, p.1@));
    assert(vs =~= url_params(uri@));
    let one = "1".to_string();
    let json = "json".to_string();
    let v_ok = match url_param(&ps, "v") {
        Some(v) => v == one,
        None => false,
    };
    let e_ok = match url_param(&ps, "encoding") {
        Some(e) => e == json,
        None => false,
    };
    v_ok && e_ok
}

/// The origins from which messages are taken.
pub open spec fn allowed_origin(o: Seq<char>) -> bool {
    o == "https://discord.com"@ || o == "https://canary.discord.com"@ || o == "https://ptb.discord.com"@
}

/// Whether a message from a connection with this `Origin` header is taken:
/// without the header it is.
pub fn origin_allowed(origin: Option<&str>) -> (r: bool)
    ensures
        r == match origin {
            Some(o) => allowed_origin(o@),
            None => true,
        },
{
    match origin {
        None => true,
        Some(o) => {
            let s = o.to_string();
            s == "https://discord.com".to_string() || s == "https://canary.discord.com".to_string()
                || s == "https://ptb.discord.com".to_string()
        },
    }
}

/// The lowest port of the intake's range.
pub const FIRST_PORT: u16 = 6463;

/// The highest port of the intake's range.
pub const LAST_PORT: u16 = 6472;

/// The port to try after `prev` failed to bind, from the lowest up; none once
/// the range is spent.
pub fn next_port(prev: Option<u16>) -> (r: Option<u16>)
    ensures
        prev is None ==> r == Some(FIRST_PORT),
        prev matches Some(p) ==> (if FIRST_PORT <= p < LAST_PORT {
            r == Some((p + 1) as u16)
        } else {
            r is None
        }),
{
    match prev {
        None => Some(FIRST_PORT),
        Some(p) => if FIRST_PORT <= p && p < LAST_PORT {
            Some(p + 1)
        } else {
            None
        },
    }
}

/// The ports tried, in order, starting from none.
pub open spec fn tried(k: nat) -> Option<u16>
    decreases k,
{
    if k == 0 {
        Some(FIRST_PORT)
    } else {
        match tried((k - 1) as nat) {
            Some(p) => if FIRST_PORT <= p < LAST_PORT {
                Some((p + 1) as u16)
            } else {
                None
            },
            None => None,
        }
    }
}

/// The ports tried are the range from the lowest up, each once, and never one
/// outside it: the `k`-th is `6463 + k` while `k` is at most 9, and there is
/// none after.
pub proof fn lemma_ports_in_range(k: nat)
    ensures
        k <= (LAST_PORT - FIRST_PORT) ==> tried(k) == Some((FIRST_PORT + k) as u16),
        k > (LAST_PORT - FIRST_PORT) ==> tried(k) is None,
        tried(k) matches Some(p) ==> FIRST_PORT <= p <= LAST_PORT,
    decreases k,
{
    if k > 0 {
        lemma_ports_in_range((k - 1) as nat);
    }
}

/// What the intake does with a command.
#[derive(Clone, Copy, Debug, PartialEq, Eq, Structural)]
pub enum IntakeCommand {
    /// Forward it and answer the sender.
    Invite,
    /// Remember it for the sender and forward it.
    SetActivity,
    /// Accept it and do nothing.
    DeepLink,
    /// Forward it as it is.
    Other,
}

/// How the intake treats the command named `cmd`.
pub fn classify(cmd: &String) -> (r: IntakeCommand)
    ensures
        cmd@ == "INVITE_BROWSER"@ ==> r == IntakeCommand::Invite,
        cmd@ == "SET_ACTIVITY"@ ==> r == IntakeCommand::SetActivity,
        cmd@ == "DEEP_LINK"@ ==> r == IntakeCommand::DeepLink,
        cmd@ != "INVITE_BROWSER"@ && cmd@ != "SET_ACTIVITY"@ && cmd@ != "DEEP_LINK"@ ==> r
            == IntakeCommand::Other,
{
    proof {
        reveal_strlit("INVITE_BROWSER");
        reveal_strlit("SET_ACTIVITY");
        reveal_strlit("DEEP_LINK");
        assert("INVITE_BROWSER"@.len() != "SET_ACTIVITY"@.len());
        assert("INVITE_BROWSER"@.len() != "DEEP_LINK"@.len());
        assert("SET_ACTIVITY"@.len() != "DEEP_LINK"@.len());
    }
    if *cmd == "INVITE_BROWSER".to_string() {
        IntakeCommand::Invite
    } else if *cmd == "SET_ACTIVITY".to_string() {
        IntakeCommand::SetActivity
    } else if *cmd == "DEEP_LINK".to_string() {
        IntakeCommand::DeepLink
    } else {
        IntakeCommand::Other
    }
}

/// Whether the intake passes on a command of this kind: activities when the
/// intake is enabled, invites and other commands when secondary events are,
/// deep links never (they are accepted and dropped).
pub fn passes_on(kind: IntakeCommand, activities: bool, secondary_events: bool) -> (r: bool)
    ensures
        r == match kind {
            IntakeCommand::SetActivity => activities,
            IntakeCommand::Invite | IntakeCommand::Other => secondary_events,
            IntakeCommand::DeepLink => false,
        },
{
    match kind {
        IntakeCommand::SetActivity => activities,
        IntakeCommand::Invite => secondary_events,
        IntakeCommand::Other => secondary_events,
        IntakeCommand::DeepLink => false,
    }
}

/// The arguments as a flat map of text values: only an invite code stands
/// alone as text; arguments that also carry a process id or an activity, which
/// are not text, give an empty map.
pub open spec fn args_map(args: Option<ActivityCmdArgs>) -> Seq<(Seq<char>, Seq<char>)> {
    match args {
        Some(a) => if a.pid is None && a.activity is None && a.code is Some {
            seq![("code"@, a.code->Some_0@)]
        } else {
            Seq::empty()
        },
        None => Seq::empty(),
    }
}

fn event_args_as_hashmap(args: &Option<ActivityCmdArgs>) -> (r: Vec<(String, String)>)
    ensures
        r@.map_values(|p: (String, String)| (p.0@, p.1@)) == args_map(*args),
{
    let mut r: Vec<(String, String)> = Vec::new();
    match args {
        Some(a) => {
            if a.pid.is_none() && a.activity.is_none() {
                match &a.code {
                    Some(c) => {
                        r.push(("code".to_string(), c.clone()));
                    },
                    None => {},
                }
            }
        },
        None => {},
    }
    assert(r@.map_values(|p: (String, String)| (p.0@, p.1@)) =~= args_map(*args));
    r
}

/// An invite: the command is forwarded unchanged, and the sender gets a
/// response that echoes its command name, application id and nonce, with the
/// arguments as a flat map in `data`.
pub fn handle_invite(event: ActivityCmd) -> (r: (ActivityCmd, ActivityCmd))
    ensures
        r.0 == event,
        r.1.application_id == event.application_id,
        r.1.cmd == event.cmd,
        r.1.args is None,
        r.1.evt is None,
        r.1.nonce == event.nonce,
        r.1.data matches Some(d) && d@.map_values(|p: (String, String)| (p.0@, p.1@)) == args_map(
            event.args,
        ),
{
    let data = event_args_as_hashmap(&event.args);
    let application_id = match &event.application_id {
        Some(a) => Some(a.clone()),
        None => None,
    };
    let response = ActivityCmd {
        application_id,
        cmd: event.cmd.clone(),
        args: None,
        data: Some(data),
        evt: None,
        nonce: event.nonce.clone(),
    };
    (event, response)
}

/// The process id a command's arguments carry, 0 when absent.
pub open spec fn args_pid(c: ActivityCmd) -> u64 {
    match c.args {
        Some(a) => match a.pid {
            Some(p) => p,
            None => 0,
        },
        None => 0,
    }
}

/// An activity from a browser client, with times judged against a clock
/// reading of `now` seconds: the normalised command is forwarded, and what
/// its disconnect will need (application id, process id, nonce) is returned
/// to be remembered for the client.
pub fn handle_set_activity(event: ActivityCmd, now: i64) -> (r: (ActivityCmd, ActivityCmd))
    ensures
        ActivityCmd::fixed_at(event, r.0, now),
        r.1.application_id == r.0.application_id,
        r.1.nonce == r.0.nonce,
        r.1.cmd == r.0.cmd,
        r.1.args matches Some(a) && a.pid == Some(args_pid(r.0)) && a.activity is None && a.code is None,
        r.1.data is None && r.1.evt is None,
{
    let mut event = event;
    event.fix(now);
    let pid: u64 = match &event.args {
        Some(a) => match a.pid {
            Some(p) => p,
            None => 0,
        },
        None => 0,
    };
    let application_id = match &event.application_id {
        Some(a) => Some(a.clone()),
        None => None,
    };
    let remembered = ActivityCmd {
        application_id,
        cmd: event.cmd.clone(),
        args: Some(ActivityCmdArgs { pid: Some(pid), activity: None, code: None }),
        data: None,
        evt: None,
        nonce: event.nonce.clone(),
    };
    (event, remembered)
}

/// When a browser client leaves after posting an activity, the activity is
/// cleared for the same application, process and nonce.
pub fn handle_disconnect(last: &Option<ActivityCmd>) -> (r: Option<ActivityCmd>)
    ensures
        last is None ==> r is None,
        last matches Some(c) ==> r matches Some(x) && is_clearing(
            x,
            match c.application_id {
                Some(a) => Some(a@),
                None => None,
            },
            match c.args {
                Some(a) => match a.pid {
                    Some(p) => p,
                    None => 0,
                },
                None => 0,
            },
            c.nonce@,
        ),
{
    match last {
        None => None,
        Some(c) => {
            let pid: u64 = match &c.args {
                Some(a) => match a.pid {
                    Some(p) => p,
                    None => 0,
                },
                None => 0,
            };
            let application_id = match &c.application_id {
                Some(a) => Some(a.clone()),
                None => None,
            };
            Some(
                ActivityCmd {
                    application_id,
                    cmd: "SET_ACTIVITY".to_string(),
                    data: None,
                    evt: None,
                    args: Some(ActivityCmdArgs { pid: Some(pid), activity: None, code: None }),
                    nonce: c.nonce.clone(),
                },
            )
        },
    }
}

} // verus!
