//! Platform commands and the activity payloads they carry, with the
//! normalisations applied before an activity reaches subscribers.
use vstd::prelude::*;

verus! {

/// A point in time as sent by a client: seconds or milliseconds since the
/// Unix epoch.
#[derive(Clone, Copy, Debug, PartialEq, Eq, Structural)]
pub struct TimeoutValue(pub i64);

/// The start and end of an activity.
#[derive(Clone, Copy, Debug, PartialEq, Eq, Structural)]
pub struct Timestamps {
    pub start: Option<TimeoutValue>,
    pub end: Option<TimeoutValue>,
}

/// A party an activity belongs to.
#[derive(Clone, Debug)]
pub struct Party {
    pub id: Option<String>,
    pub size: Option<Vec<u32>>,
}

/// Images and their hover texts.
#[derive(Clone, Debug)]
pub struct Assets {
    pub large_image: Option<String>,
    pub large_text: Option<String>,
    pub small_image: Option<String>,
    pub small_text: Option<String>,
}

/// Secrets for joining an activity.
#[derive(Clone, Debug)]
pub struct Secrets {
    pub join: Option<String>,
}

/// An emoji shown beside a custom status.
#[derive(Clone, Debug, Default)]
pub struct Emoji {
    pub name: Option<String>,
    pub id: Option<String>,
    pub animated: Option<bool>,
}

/// Extra data of an activity; `button_urls` holds the links of its buttons.
#[derive(Clone, Debug)]
pub struct Metadata {
    pub button_urls: Option<Vec<String>>,
    pub artist_ids: Option<Vec<String>>,
    pub album_id: Option<String>,
    pub context_uri: Option<String>,
}

/// A button as a client sends it: a label and the link it opens.
#[derive(Clone, Debug)]
pub struct Button {
    pub label: String,
    pub url: String,
}

/// One element of an activity's `buttons` list.
#[derive(Clone, Debug)]
pub enum ButtonValue {
    /// An object with a text `label` and a text `url`.
    Link(Button),
    /// A bare label, as left once the links have moved to the metadata.
    Label(String),
    /// Any other JSON value, kept as its JSON text.
    Other(String),
}

/// What a client says it is doing.
#[derive(Clone, Debug)]
pub struct Activity {
    pub id: Option<String>,
    pub name: Option<String>,
    pub buttons: Option<Vec<ButtonValue>>,
    pub activity_type: u32,
    pub url: Option<String>,
    pub created_at: Option<u64>,
    pub session_id: Option<String>,
    pub platform: Option<String>,
    pub supported_platforms: Option<Vec<String>>,
    pub timestamps: Option<Timestamps>,
    pub application_id: Option<String>,
    pub details: Option<String>,
    pub state: Option<String>,
    pub sync_id: Option<String>,
    pub instance: Option<bool>,
    pub flags: Option<u32>,
    pub emoji: Option<Emoji>,
    pub party: Option<Party>,
    pub assets: Option<Assets>,
    pub secrets: Option<Secrets>,
    pub metadata: Option<Metadata>,
}

/// The arguments of a command.
#[derive(Clone, Debug)]
pub struct ActivityCmdArgs {
    pub pid: Option<u64>,
    pub activity: Option<Activity>,
    /// The invite code of an `INVITE_BROWSER` command.
    pub code: Option<String>,
}

/// An activity as sent to subscribers, with the process and the source that
/// own it.
#[derive(Clone, Debug)]
pub struct ActivityPayload {
    pub activity: Option<Activity>,
    pub pid: Option<u64>,
    pub socket_id: Option<String>,
}

/// A platform RPC command. `nonce` holds the JSON text of the client's nonce;
/// `application_id` is filled in by the receiver.
#[derive(Clone, Debug)]
pub struct ActivityCmd {
    pub application_id: Option<String>,
    pub cmd: String,
    pub args: Option<ActivityCmdArgs>,
    pub data: Option<Vec<(String, String)>>,
    pub evt: Option<String>,
    pub nonce: String,
}

/// Seconds in the hundred years past which a time is taken to be in
/// milliseconds already.
pub const MS_HORIZON_SECS: i64 = 3_153_600_000;

/// Whether `v` is taken to be in milliseconds already, against `cutoff`.
pub open spec fn fix_time(cutoff: int, v: i64) -> i64 {
    if v > cutoff {
        v
    } else if v * 1000 > i64::MAX {
        i64::MAX
    } else if v * 1000 < i64::MIN {
        i64::MIN
    } else {
        (v * 1000) as i64
    }
}

/// The cutoff for a clock reading of `now` seconds.
pub open spec fn cutoff_of(now: i64) -> int {
    now + MS_HORIZON_SECS
}

pub open spec fn fix_value(cutoff: int, t: Option<TimeoutValue>) -> Option<TimeoutValue> {
    match t {
        Some(v) => Some(TimeoutValue(fix_time(cutoff, v.0))),
        None => None,
    }
}

pub open spec fn fix_times(cutoff: int, t: Timestamps) -> Timestamps {
    Timestamps { start: fix_value(cutoff, t.start), end: fix_value(cutoff, t.end) }
}

/// The time `v` in milliseconds: kept when past `cutoff`, else multiplied by
/// a thousand, held within the range of `i64`.
pub fn fixed_time(cutoff: i128, v: i64) -> (r: i64)
    ensures
        r == fix_time(cutoff as int, v),
{
    if v as i128 > cutoff {
        v
    } else {
        let m: i128 = v as i128 * 1000;
        if m > i64::MAX as i128 {
            i64::MAX
        } else if m < i64::MIN as i128 {
            i64::MIN
        } else {
            m as i64
        }
    }
}

impl Activity {
    pub open spec fn spec_fix_timestamps(self, cutoff: int) -> Activity {
        match self.timestamps {
            Some(t) => Activity { timestamps: Some(fix_times(cutoff, t)), ..self },
            None => self,
        }
    }

    pub open spec fn spec_fix_flags(self) -> Activity {
        if self.instance == Some(true) && self.flags is None {
            Activity { flags: Some(1), ..self }
        } else {
            self
        }
    }

    /// Every button is a `{label, url}` object.
    pub open spec fn all_links(bs: Seq<ButtonValue>) -> bool {
        forall|i: int| 0 <= i < bs.len() ==> bs[i] is Link
    }

    /// `b` is `a` with its button objects split: labels stay in `buttons`,
    /// links move to `metadata.button_urls`, and nothing else changes.
    pub open spec fn buttons_split(a: Activity, b: Activity) -> bool {
        let bs = a.buttons->Some_0;
        if a.buttons is Some && Activity::all_links(bs@) {
            {
                &&& b == Activity { buttons: b.buttons, metadata: b.metadata, ..a }
                &&& b.buttons matches Some(nb) && nb@.len() == bs@.len() && forall|i: int|
                    0 <= i < bs@.len() ==> nb@[i] == ButtonValue::Label(bs@[i]->Link_0.label)
                &&& b.metadata is Some && b.metadata->Some_0.button_urls is Some
                &&& b.metadata->Some_0.button_urls->Some_0@.len() == bs@.len()
                &&& forall|i: int|
                    0 <= i < bs@.len() ==> b.metadata->Some_0.button_urls->Some_0@[i]
                        == bs@[i]->Link_0.url
                &&& match a.metadata {
                    Some(om) => b.metadata->Some_0.artist_ids == om.artist_ids
                        && b.metadata->Some_0.album_id == om.album_id
                        && b.metadata->Some_0.context_uri == om.context_uri,
                    None => b.metadata->Some_0.artist_ids is None && b.metadata->Some_0.album_id is None
                        && b.metadata->Some_0.context_uri is None,
                }
            }
        } else {
            b == a
        }
    }

    fn fix_timestamps_with(&mut self, cutoff: i128)
        ensures
            *final(self) == old(self).spec_fix_timestamps(cutoff as int),
    {
        if let Some(t) = self.timestamps {
            let start = match t.start {
                Some(v) => Some(TimeoutValue(fixed_time(cutoff, v.0))),
                None => None,
            };
            let end = match t.end {
                Some(v) => Some(TimeoutValue(fixed_time(cutoff, v.0))),
                None => None,
            };
            self.timestamps = Some(Timestamps { start, end });
        }
    }

    fn fix_buttons(&mut self)
        ensures
            Activity::buttons_split(*old(self), *final(self)),
    {
        let mut labels: Vec<ButtonValue> = Vec::new();
        let mut urls: Vec<String> = Vec::new();
        match &self.buttons {
            None => {
                return ;
            },
            Some(bs) => {
                let mut i: usize = 0;
                while i < bs.len()
                    invariant
                        i <= bs@.len(),
                        *self == *old(self),
                        self.buttons == Some(*bs),
                        labels@.len() == i && urls@.len() == i,
                        forall|k: int| 0 <= k < i ==> bs@[k] is Link,
                        forall|k: int|
                            0 <= k < i ==> labels@[k] == ButtonValue::Label(bs@[k]->Link_0.label)
                                && urls@[k] == bs@[k]->Link_0.url,
                    decreases bs@.len() - i,
                {
                    match &bs[i] {
                        ButtonValue::Link(b) => {
                            labels.push(ButtonValue::Label(b.label.clone()));
                            urls.push(b.url.clone());
                        },
                        _ => {
                            assert(!Activity::all_links(bs@));
                            return ;
                        },
                    }
                    i = i + 1;
                }
            },
        }
        let meta = match self.metadata.take() {
            Some(m) => Metadata {
                button_urls: Some(urls),
                artist_ids: m.artist_ids,
                album_id: m.album_id,
                context_uri: m.context_uri,
            },
            None => Metadata { button_urls: Some(urls), artist_ids: None, album_id: None, context_uri: None },
        };
        self.metadata = Some(meta);
        self.buttons = Some(labels);
    }

    fn fix_flags(&mut self)
        ensures
            *final(self) == old(self).spec_fix_flags(),
    {
        if self.instance == Some(true) && self.flags.is_none() {
            self.flags = Some(1);
        }
    }
}


impl ActivityCmd {
    /// The activity the command carries, if any.
    pub open spec fn activity_of(self) -> Option<Activity> {
        match self.args {
            Some(a) => a.activity,
            None => None,
        }
    }

    /// The command with its activity replaced by `a`.
    pub open spec fn with_activity(self, a: Activity) -> ActivityCmd {
        ActivityCmd { args: Some(ActivityCmdArgs { activity: Some(a), ..self.args->Some_0 }), ..self }
    }

    /// The command once every activity time is in milliseconds against `cutoff`.
    pub open spec fn spec_fix_timestamps(self, cutoff: int) -> ActivityCmd {
        match self.activity_of() {
            Some(a) => self.with_activity(a.spec_fix_timestamps(cutoff)),
            None => self,
        }
    }

    pub open spec fn spec_fix_flags(self) -> ActivityCmd {
        match self.activity_of() {
            Some(a) => self.with_activity(a.spec_fix_flags()),
            None => self,
        }
    }

    /// `b` is `a` with the buttons of its activity split.
    pub open spec fn buttons_fixed(a: ActivityCmd, b: ActivityCmd) -> bool {
        match a.activity_of() {
            Some(x) => b.activity_of() matches Some(y) && Activity::buttons_split(x, y) && b
                == a.with_activity(y),
            None => b == a,
        }
    }

    /// A command with nothing set: empty `cmd` and empty nonce.
    pub fn empty() -> (r: ActivityCmd)
        ensures
            r.application_id is None,
            r.cmd@.len() == 0,
            r.args is None,
            r.data is None,
            r.evt is None,
            r.nonce@.len() == 0,
    {
        ActivityCmd {
            application_id: None,
            cmd: String::new(),
            args: None,
            data: None,
            evt: None,
            nonce: String::new(),
        }
    }

    /// Puts the activity's times in milliseconds, judged against a clock
    /// reading of `now` seconds: a time past a hundred years from `now` is
    /// already in milliseconds, any other is in seconds.
    pub fn fix_timestamps(&mut self, now: i64)
        ensures
            *final(self) == old(self).spec_fix_timestamps(cutoff_of(now)),
    {
        let cutoff: i128 = now as i128 + MS_HORIZON_SECS as i128;
        if let Some(args) = &mut self.args {
            if let Some(activity) = &mut args.activity {
                activity.fix_timestamps_with(cutoff);
            }
        }
    }

    /// Splits button objects into labels and links (see `Activity::buttons_split`).
    pub fn fix_buttons(&mut self)
        ensures
            ActivityCmd::buttons_fixed(*old(self), *final(self)),
    {
        if let Some(args) = &mut self.args {
            if let Some(activity) = &mut args.activity {
                activity.fix_buttons();
            }
        }
    }

    /// Marks an instanced activity with flag 1 when it carries no flags.
    pub fn fix_flags(&mut self)
        ensures
            *final(self) == old(self).spec_fix_flags(),
    {
        if let Some(args) = &mut self.args {
            if let Some(activity) = &mut args.activity {
                activity.fix_flags();
            }
        }
    }

    /// `b` is `a` after all three normalisations, against a clock reading of
    /// `now` seconds.
    pub open spec fn fixed_at(a: ActivityCmd, b: ActivityCmd, now: i64) -> bool {
        exists|mid: ActivityCmd|
            ActivityCmd::buttons_fixed(a.spec_fix_timestamps(cutoff_of(now)), mid) && b
                == mid.spec_fix_flags()
    }

    /// All three normalisations, in order: times (against a clock reading of
    /// `now` seconds), buttons, flags.
    pub fn fix(&mut self, now: i64)
        ensures
            ActivityCmd::fixed_at(*old(self), *final(self), now),
    {
        self.fix_timestamps(now);
        self.fix_buttons();
        let ghost mid = *self;
        self.fix_flags();
        assert(ActivityCmd::buttons_fixed(old(self).spec_fix_timestamps(cutoff_of(now)), mid));
        assert(ActivityCmd::fixed_at(*old(self), *self, now));
    }
}

/// Putting times in milliseconds twice, against one clock reading, gives what
/// doing it once gives, as long as each time present is past the cutoff, or
/// lands past it, at zero or at a bound of `i64` once multiplied.
pub proof fn lemma_fix_timestamps_idempotent(c: ActivityCmd, now: i64)
    requires
        c.activity_of() matches Some(a) ==> a.timestamps matches Some(t) ==> settles(
            cutoff_of(now),
            t.start,
        ) && settles(cutoff_of(now), t.end),
    ensures
        c.spec_fix_timestamps(cutoff_of(now)).spec_fix_timestamps(cutoff_of(now))
            == c.spec_fix_timestamps(cutoff_of(now)),
{
    let k = cutoff_of(now);
    if let Some(a) = c.activity_of() {
        if let Some(t) = a.timestamps {
            lemma_fix_time_settles(k, t.start);
            lemma_fix_time_settles(k, t.end);
            assert(c.spec_fix_timestamps(k).activity_of() == Some(a.spec_fix_timestamps(k)));
        }
    }
}

/// A time for which a second conversion changes nothing.
pub open spec fn settles(cutoff: int, t: Option<TimeoutValue>) -> bool {
    match t {
        Some(v) => v.0 > cutoff || fix_time(cutoff, v.0) > cutoff || fix_time(cutoff, v.0) == 0
            || fix_time(cutoff, v.0) == i64::MAX || fix_time(cutoff, v.0) == i64::MIN,
        None => true,
    }
}

proof fn lemma_fix_time_settles(cutoff: int, t: Option<TimeoutValue>)
    requires
        settles(cutoff, t),
    ensures
        fix_value(cutoff, fix_value(cutoff, t)) == fix_value(cutoff, t),
{
    if let Some(v) = t {
        let w = fix_time(cutoff, v.0);
        if w <= cutoff {
            assert(w == 0 || w == i64::MAX || w == i64::MIN);
        }
    }
}

/// After the split, the i-th label and the i-th link are those of the i-th
/// button object the command came with.
pub proof fn lemma_button_split_faithful(a: ActivityCmd, b: ActivityCmd, i: int)
    requires
        ActivityCmd::buttons_fixed(a, b),
        a.activity_of() matches Some(x) && x.buttons matches Some(bs) && Activity::all_links(bs@),
        0 <= i < a.activity_of()->Some_0.buttons->Some_0@.len(),
    ensures
        b.activity_of()->Some_0.buttons->Some_0@[i] == ButtonValue::Label(
            a.activity_of()->Some_0.buttons->Some_0@[i]->Link_0.label,
        ),
        b.activity_of()->Some_0.metadata->Some_0.button_urls->Some_0@[i]
            == a.activity_of()->Some_0.buttons->Some_0@[i]->Link_0.url,
{
}

} // verus!
