//! The process scanner: matches a snapshot of running processes against the
//! built-in and the custom catalogs, and decides what each scan reports.
use vstd::prelude::*;
use crate::detection::{DetectableActivity, Executable};
use crate::index::{CatalogIndex, Entry, builds, catalog_entries, first_suffix, is_gated, normalise, normalised, pattern_of};
use crate::json::{decimal, push_decimal};
use crate::text::{chars_of, contains_chars, contains_str, is_substring, is_suffix, string_of};
use crate::websocket::{lemma_split_nonempty, split, split_chars};

verus! {

/// What a scan noticed besides the applications it matched.
#[derive(Clone, Copy, Debug, Default, PartialEq, Eq, Structural)]
pub struct ProcessScanState {
    /// A streaming application (OBS or Streamlabs) is running.
    pub obs_open: bool,
}

/// One running process: its id, its executable path and its arguments after
/// the first, joined by spaces.
#[derive(Clone, Debug)]
pub struct Exec {
    pub pid: u64,
    pub path: String,
    pub arguments: Option<String>,
}

/// What the scanner reports after a scan.
#[derive(Clone, Debug)]
pub struct ProcessDetectedEvent {
    pub activity: DetectableActivity,
}

/// The first entry whose pattern `s` ends with: its application and
/// executable positions.
pub open spec fn first_hit(ents: Seq<Entry>, s: Seq<char>) -> Option<(int, int)> {
    if exists|k: int| least_hit(ents, s, k) {
        let k = choose|k: int| least_hit(ents, s, k);
        Some((ents[k].1, ents[k].2))
    } else {
        None
    }
}

/// `k` is the first entry whose pattern `s` ends with.
pub open spec fn least_hit(ents: Seq<Entry>, s: Seq<char>, k: int) -> bool {
    0 <= k < ents.len() && is_suffix(ents[k].0, s) && forall|j: int|
        0 <= j < k ==> !is_suffix(#[trigger] ents[j].0, s)
}

proof fn lemma_first_hit(ents: Seq<Entry>, s: Seq<char>, r: Option<(usize, usize)>)
    requires
        first_suffix(ents, s, r),
    ensures
        match r {
            Some((a, e)) => first_hit(ents, s) == Some((a as int, e as int)),
            None => first_hit(ents, s) is None,
        },
{
    match r {
        Some((a, e)) => {
            let k0 = choose|k: int|
                0 <= k < ents.len() && is_suffix(#[trigger] ents[k].0, s) && ents[k].1 == a
                    && ents[k].2 == e && forall|j: int| 0 <= j < k ==> !is_suffix(#[trigger] ents[j].0, s);
            assert(least_hit(ents, s, k0));
            let k = choose|k: int| least_hit(ents, s, k);
            if k < k0 {
                assert(!is_suffix(ents[k].0, s));
            }
            if k0 < k {
                assert(!is_suffix(ents[k0].0, s));
            }
        },
        None => {
            if exists|k: int| least_hit(ents, s, k) {
                let k = choose|k: int| least_hit(ents, s, k);
                assert(!is_suffix(ents[k].0, s));
            }
        },
    }
}

/// Some entry's pattern `s` ends with.
pub open spec fn some_suffix(ents: Seq<Entry>, s: Seq<char>) -> bool {
    exists|k: int| 0 <= k < ents.len() && is_suffix(#[trigger] ents[k].0, s)
}

proof fn lemma_least_exists(ents: Seq<Entry>, s: Seq<char>, k: int)
    requires
        0 <= k < ents.len(),
        is_suffix(ents[k].0, s),
    ensures
        exists|j: int| least_hit(ents, s, j),
    decreases k,
{
    if exists|j: int| 0 <= j < k && is_suffix(#[trigger] ents[j].0, s) {
        let j = choose|j: int| 0 <= j < k && is_suffix(#[trigger] ents[j].0, s);
        lemma_least_exists(ents, s, j);
    } else {
        assert(least_hit(ents, s, k));
    }
}

/// There is a first matching entry exactly when some entry matches.
pub proof fn lemma_first_hit_iff(ents: Seq<Entry>, s: Seq<char>)
    ensures
        first_hit(ents, s) is Some <==> some_suffix(ents, s),
{
    if some_suffix(ents, s) {
        let k = choose|k: int| 0 <= k < ents.len() && is_suffix(#[trigger] ents[k].0, s);
        lemma_least_exists(ents, s, k);
    }
    if first_hit(ents, s) is Some {
        let k = choose|k: int| least_hit(ents, s, k);
        assert(is_suffix(ents[k].0, s));
    }
}

/// Every entry of a catalog names an application of it, and one of that
/// application's executables, not a launcher, whose pattern it holds.
pub proof fn lemma_entries_valid(apps: Seq<DetectableActivity>, k: int)
    requires
        0 <= k < catalog_entries(apps).len(),
    ensures
        ({
            let e = catalog_entries(apps)[k];
            &&& 0 <= e.1 < apps.len()
            &&& apps[e.1].executables is Some
            &&& 0 <= e.2 < apps[e.1].executables->Some_0@.len()
            &&& !apps[e.1].executables->Some_0@[e.2].is_launcher
            &&& e.0 == pattern_of(apps[e.1].executables->Some_0@[e.2].name@)
        }),
    decreases apps.len(),
{
    let rest = apps.drop_last();
    let n = catalog_entries(rest).len();
    if k < n {
        lemma_entries_valid(rest, k);
    } else {
        let app = apps.last();
        let exes = app.executables->Some_0@;
        lemma_exe_entries_valid(exes, apps.len() - 1, k - n);
    }
}

proof fn lemma_exe_entries_valid(exes: Seq<Executable>, ai: int, k: int)
    requires
        0 <= k < crate::index::exe_entries(exes, ai).len(),
    ensures
        ({
            let e = crate::index::exe_entries(exes, ai)[k];
            &&& e.1 == ai
            &&& 0 <= e.2 < exes.len()
            &&& !exes[e.2].is_launcher
            &&& e.0 == pattern_of(exes[e.2].name@)
        }),
    decreases exes.len(),
{
    let rest = exes.drop_last();
    if k < crate::index::exe_entries(rest, ai).len() {
        lemma_exe_entries_valid(rest, ai, k);
    }
}

/// Whether the argument check of `exe` lets a process with `args` through:
/// an executable whose name starts with `>` and that names required
/// arguments is kept only when the process's arguments contain them.
pub open spec fn gate_ok(exe: Executable, args: Option<String>) -> bool {
    match exe.arguments {
        Some(req) => is_gated(exe.name@) ==> (args matches Some(x) && is_substring(req@, x@)),
        None => true,
    }
}

/// A detected application, stamped: `d` is the catalog entry `app` with the
/// process id `pid` and the detection time `ts`.
pub open spec fn stamped(d: DetectableActivity, app: DetectableActivity, pid: u64, ts: Seq<char>) -> bool {
    &&& d.same_catalog_fields(&app)
    &&& d.pid == Some(pid)
    &&& d.timestamp matches Some(t) && t@ == ts
}

/// A streaming application shows in a normalised path.
pub open spec fn streaming_path(np: Seq<char>) -> bool {
    is_substring("obs64"@, np) || is_substring("streamlabs"@, np)
}

/// Keeps the entries whose name is not `name`.
pub open spec fn not_named(name: Seq<char>) -> spec_fn(DetectableActivity) -> bool {
    |x: DetectableActivity| x.name@ != name
}

/// The scanner's catalogs, their indexes, and the list it last reported.
pub struct ProcessServer {
    detectable_list: Vec<DetectableActivity>,
    custom_detectables: Vec<DetectableActivity>,
    detected_list: Vec<DetectableActivity>,
    index: CatalogIndex,
    custom_index: Option<CatalogIndex>,
}

impl ProcessServer {
    /// The built-in catalog.
    pub closed spec fn builtin(&self) -> Seq<DetectableActivity> {
        self.detectable_list@
    }

    /// The custom catalog.
    pub closed spec fn custom(&self) -> Seq<DetectableActivity> {
        self.custom_detectables@
    }

    /// The list the scanner last reported a change of.
    pub closed spec fn detected(&self) -> Seq<DetectableActivity> {
        self.detected_list@
    }

    /// The custom catalog is indexed; it is not only when its automaton could
    /// not be built.
    pub closed spec fn custom_ready(&self) -> bool {
        self.custom_index is Some
    }

    /// The entries searched in the custom catalog.
    pub open spec fn custom_entries(&self) -> Seq<Entry> {
        if self.custom_ready() {
            catalog_entries(self.custom())
        } else {
            Seq::empty()
        }
    }

    pub closed spec fn wf(&self) -> bool {
        &&& self.index.wf()
        &&& self.index@ == catalog_entries(self.detectable_list@)
        &&& self.custom_index matches Some(ix) ==> ix.wf() && ix@ == catalog_entries(
            self.custom_detectables@,
        )
        &&& self.custom_index is Some <==> builds(self.custom_detectables@)
    }

    /// In a well-formed scanner the custom catalog is searched exactly when
    /// its index can be built.
    pub proof fn lemma_custom_ready(&self)
        requires
            self.wf(),
        ensures
            self.custom_ready() <==> builds(self.custom()),
    {
    }

    /// The application a normalised path leads to: the built-in catalog
    /// first, then the custom one. `true` marks the custom catalog.
    pub open spec fn hit(&self, np: Seq<char>) -> Option<(bool, int, int)> {
        match first_hit(catalog_entries(self.builtin()), np) {
            Some((a, e)) => Some((false, a, e)),
            None => match first_hit(self.custom_entries(), np) {
                Some((a, e)) => Some((true, a, e)),
                None => None,
            },
        }
    }

    /// The catalog entry at `a` of the built-in or the custom catalog.
    pub open spec fn entry(&self, custom: bool, a: int) -> DetectableActivity {
        if custom {
            self.custom()[a]
        } else {
            self.builtin()[a]
        }
    }

    /// What a process is detected as: the catalog, the application, and the
    /// process id, when a pattern fits its path and the argument check passes.
    pub open spec fn detect(&self, p: Exec) -> Option<(bool, int, u64)> {
        match self.hit(normalise(p.path@)) {
            Some((c, a, e)) => if gate_ok(self.entry(c, a).executables->Some_0@[e], p.arguments) {
                Some((c, a, p.pid))
            } else {
                None
            },
            None => None,
        }
    }

    /// The detections of a snapshot, in its order.
    pub open spec fn detections(&self, ps: Seq<Exec>) -> Seq<(bool, int, u64)>
        decreases ps.len(),
    {
        if ps.len() == 0 {
            Seq::empty()
        } else {
            self.detections(ps.drop_last()) + match self.detect(ps.last()) {
                Some(d) => seq![d],
                None => Seq::empty(),
            }
        }
    }

    /// `out` holds, for each detection of `ps`, its catalog entry stamped
    /// with the process id and the time `ts`.
    pub open spec fn scan_result(&self, ps: Seq<Exec>, ts: Seq<char>, out: Seq<DetectableActivity>) -> bool {
        &&& out.len() == self.detections(ps).len()
        &&& forall|i: int|
            0 <= i < out.len() ==> stamped(
                #[trigger] out[i],
                self.entry(self.detections(ps)[i].0, self.detections(ps)[i].1),
                self.detections(ps)[i].2,
                ts,
            )
    }

    /// A scanner over the built-in catalog `detectable`, with an empty custom
    /// catalog. It is `None` exactly when the catalog's index cannot be built.
    pub fn new(detectable: Vec<DetectableActivity>) -> (r: Option<ProcessServer>)
        ensures
            r matches Some(s) ==> s.wf() && s.builtin() == detectable@ && s.custom().len() == 0
                && s.detected().len() == 0 && s.custom_ready(),
            r is Some <==> builds(detectable@),
    {
        let index = match CatalogIndex::build(&detectable) {
            Some(ix) => ix,
            None => return None,
        };
        let custom: Vec<DetectableActivity> = Vec::new();
        assert(catalog_entries(custom@) =~= Seq::<Entry>::empty());
        Some(
            ProcessServer {
                detectable_list: detectable,
                custom_detectables: custom,
                detected_list: Vec::new(),
                index,
                custom_index: Some(CatalogIndex::empty()),
            },
        )
    }

    /// Rebuilds the index of the custom catalog; `false` when its automaton
    /// could not be built, and then no custom entry matches.
    fn update_custom_detectables(&mut self) -> (r: bool)
        requires
            old(self).index.wf(),
            old(self).index@ == catalog_entries(old(self).detectable_list@),
        ensures
            final(self).wf(),
            r == final(self).custom_ready(),
            final(self).builtin() == old(self).builtin(),
            final(self).custom() == old(self).custom(),
            final(self).detected() == old(self).detected(),
            r == builds(old(self).custom()),
    {
        self.custom_index = CatalogIndex::build(&self.custom_detectables);
        self.custom_index.is_some()
    }

    /// Adds entries to the custom catalog and rebuilds its index.
    pub fn append_detectables(&mut self, detectable: Vec<DetectableActivity>) -> (r: bool)
        requires
            old(self).wf(),
        ensures
            final(self).wf(),
            final(self).custom() == old(self).custom() + detectable@,
            final(self).builtin() == old(self).builtin(),
            final(self).detected() == old(self).detected(),
            r == final(self).custom_ready(),
            r == builds(final(self).custom()),
    {
        let mut detectable = detectable;
        self.custom_detectables.append(&mut detectable);
        self.update_custom_detectables()
    }

    /// Removes every custom entry named `name` and rebuilds the index.
    pub fn remove_detectable_by_name(&mut self, name: String) -> (r: bool)
        requires
            old(self).wf(),
        ensures
            final(self).wf(),
            final(self).custom() == old(self).custom().filter(not_named(name@)),
            final(self).builtin() == old(self).builtin(),
            final(self).detected() == old(self).detected(),
            r == final(self).custom_ready(),
            r == builds(final(self).custom()),
    {
        let mut rest: Vec<DetectableActivity> = Vec::new();
        std::mem::swap(&mut rest, &mut self.custom_detectables);
        let ghost orig = rest@;
        let mut kept: Vec<DetectableActivity> = Vec::new();
        let mut i: usize = 0;
        let total: usize = rest.len();
        while rest.len() > 0
            invariant
                total == orig.len(),
                i + rest@.len() == orig.len(),
                rest@ == orig.skip(i as int),
                kept@ == orig.take(i as int).filter(not_named(name@)),
            decreases rest@.len(),
        {
            let x = rest.remove(0);
            assert(orig.take(i + 1).drop_last() =~= orig.take(i as int));
            assert(orig.take(i + 1).last() == x);
            let keep = !x.name.eq(&name);
            assert(keep == not_named(name@)(x));
            if keep {
                kept.push(x);
            }
            proof {
                reveal(Seq::filter);
                assert(orig.take(i + 1).filter(not_named(name@)) == if not_named(name@)(x) {
                    orig.take(i as int).filter(not_named(name@)).push(x)
                } else {
                    orig.take(i as int).filter(not_named(name@))
                });
                assert(kept@ =~= orig.take(i + 1).filter(not_named(name@)));
            }
            i = i + 1;
            assert(rest@ =~= orig.skip(i as int));
        }
        assert(orig.take(i as int) =~= orig);
        self.custom_detectables = kept;
        self.update_custom_detectables()
    }

    /// The application `np` leads to, with the positions the index gives.
    fn find(&self, np: &Vec<char>) -> (r: Option<(bool, usize, usize)>)
        requires
            self.wf(),
        ensures
            match r {
                Some((c, a, e)) => self.hit(np@) == Some((c, a as int, e as int)),
                None => self.hit(np@) is None,
            },
    {
        let found = self.index.lookup(np);
        proof {
            lemma_first_hit(self.index@, np@, found);
        }
        match found {
            Some((a, e)) => Some((false, a, e)),
            None => match &self.custom_index {
                Some(ix) => {
                    let cf = ix.lookup(np);
                    proof {
                        lemma_first_hit(ix@, np@, cf);
                    }
                    match cf {
                        Some((a, e)) => Some((true, a, e)),
                        None => None,
                    }
                },
                None => {
                    assert(first_hit(Seq::<Entry>::empty(), np@) is None);
                    None
                },
            },
        }
    }

    /// Matches a snapshot of processes against both catalogs, stamping each
    /// detection with the process id and the time `now_ms`, and notes whether
    /// a streaming application runs.
    pub fn scan_for_processes(&self, processes: &Vec<Exec>, now_ms: u64) -> (r: (Vec<DetectableActivity>, ProcessScanState))
        requires
            self.wf(),
        ensures
            self.scan_result(processes@, decimal(now_ms as nat), r.0@),
            r.1.obs_open == exists|j: int|
                0 <= j < processes@.len() && streaming_path(normalise(#[trigger] processes@[j].path@)),
    {
        let mut ts = String::new();
        push_decimal(&mut ts, now_ms);
        let obs = chars_of("obs64");
        let labs = chars_of("streamlabs");
        let mut out: Vec<DetectableActivity> = Vec::new();
        let mut obs_open = false;
        let mut i: usize = 0;
        while i < processes.len()
            invariant
                self.wf(),
                i <= processes@.len(),
                ts@ == decimal(now_ms as nat),
                obs@ == "obs64"@,
                labs@ == "streamlabs"@,
                self.scan_result(processes@.take(i as int), ts@, out@),
                obs_open == exists|j: int|
                    0 <= j < i && streaming_path(normalise(#[trigger] processes@[j].path@)),
            decreases processes@.len() - i,
        {
            let p = &processes[i];
            let np = normalised(p.path.as_str());
            if contains_chars(&np, &obs) || contains_chars(&np, &labs) {
                obs_open = true;
            }
            let ghost before = out@;
            let ghost ps = processes@.take(i + 1);
            assert(ps.drop_last() =~= processes@.take(i as int));
            assert(ps.last() == *p);
            match self.find(&np) {
                Some((c, a, e)) => {
                    let ghost ents = if c {
                        catalog_entries(self.custom())
                    } else {
                        catalog_entries(self.builtin())
                    };
                    proof {
                        let cat = if c { self.custom() } else { self.builtin() };
                        let k = choose|k: int| least_hit(ents, np@, k);
                        lemma_entries_valid(cat, k);
                    }
                    let app = if c {
                        &self.custom_detectables[a]
                    } else {
                        &self.detectable_list[a]
                    };
                    let ok = match &app.executables {
                        Some(exes) => gate_passes(&exes[e], &p.arguments),
                        None => false,
                    };
                    if ok {
                        let mut d = app.clone();
                        d.pid = Some(p.pid);
                        d.timestamp = Some(ts.clone());
                        out.push(d);
                    }
                },
                None => {},
            }
            i = i + 1;
            assert(self.scan_result(processes@.take(i as int), ts@, out@)) by {
                let dn = self.detections(processes@.take(i as int));
                assert(dn == self.detections(processes@.take(i - 1)) + match self.detect(*p) {
                    Some(d) => seq![d],
                    None => Seq::empty(),
                });
                assert forall|k: int| 0 <= k < out@.len() implies stamped(
                    #[trigger] out@[k],
                    self.entry(dn[k].0, dn[k].1),
                    dn[k].2,
                    ts@,
                ) by {
                    if k < before.len() {
                        assert(out@[k] == before[k]);
                    }
                }
            }
        }
        assert(processes@.take(i as int) =~= processes@);
        (out, ProcessScanState { obs_open })
    }

    /// What a scan reports: the first detection, or the "nothing detected"
    /// entry when there is none. The remembered list is replaced when the
    /// first detection is a different application than the remembered first.
    pub fn report(&mut self, detected: Vec<DetectableActivity>) -> (r: ProcessDetectedEvent)
        requires
            old(self).wf(),
        ensures
            final(self).wf(),
            final(self).builtin() == old(self).builtin(),
            final(self).custom() == old(self).custom(),
            final(self).custom_ready() == old(self).custom_ready(),
            detected@.len() == 0 ==> r.activity.is_blank_sentinel() && final(self).detected() == old(
                self,
            ).detected(),
            detected@.len() > 0 ==> r.activity.same_entry(&detected@[0]),
            detected@.len() > 0 ==> if old(self).detected().len() == 0 || old(self).detected()[0].id@
                != detected@[0].id@ {
                final(self).detected() == detected@
            } else {
                final(self).detected() == old(self).detected()
            },
    {
        if detected.len() == 0 {
            return ProcessDetectedEvent { activity: DetectableActivity::sentinel() };
        }
        let activity = detected[0].clone();
        let changed = self.detected_list.len() == 0 || !self.detected_list[0].id.eq(&detected[0].id);
        if changed {
            self.detected_list = detected;
        }
        ProcessDetectedEvent { activity }
    }
}

/// Whether the argument check of `exe` lets a process with `args` through.
pub fn gate_passes(exe: &Executable, args: &Option<String>) -> (r: bool)
    ensures
        r == gate_ok(*exe, *args),
{
    match &exe.arguments {
        None => true,
        Some(req) => {
            let name = chars_of(exe.name.as_str());
            if !(name.len() > 0 && name[0] == '>') {
                return true;
            }
            match args {
                Some(x) => contains_str(x.as_str(), req.as_str()),
                None => false,
            }
        },
    }
}

/// An executable whose name starts with `>` and that names required
/// arguments keeps a match only when the process's arguments contain them.
pub proof fn lemma_argument_gate(s: ProcessServer, p: Exec, c: bool, a: int, e: int)
    requires
        s.hit(normalise(p.path@)) == Some((c, a, e)),
        is_gated(s.entry(c, a).executables->Some_0@[e].name@),
        s.entry(c, a).executables->Some_0@[e].arguments is Some,
    ensures
        s.detect(p) is Some <==> (p.arguments matches Some(x) && is_substring(
            s.entry(c, a).executables->Some_0@[e].arguments->Some_0@,
            x@,
        )),
{
}

/// The part of a file name before its first `.`.
pub open spec fn stem(name: Seq<char>) -> Seq<char> {
    if exists|i: int| 0 <= i < name.len() && name[i] == '.' {
        let i = choose|i: int| 0 <= i < name.len() && name[i] == '.' && forall|j: int| 0 <= j < i ==> name[j] != '.';
        name.subrange(0, i)
    } else {
        name
    }
}

/// The name without its extension: the part before the first `.`.
pub fn name_no_ext(name: &String) -> (r: String)
    ensures
        r@ == stem(name@),
{
    let cs = chars_of(name.as_str());
    let mut i: usize = 0;
    while i < cs.len()
        invariant
            i <= cs@.len(),
            cs@ == name@,
            forall|j: int| 0 <= j < i ==> cs@[j] != '.',
        decreases cs@.len() - i,
    {
        if cs[i] == '.' {
            let mut out: Vec<char> = Vec::new();
            let mut k: usize = 0;
            while k < i
                invariant
                    k <= i < cs@.len(),
                    cs@ == name@,
                    forall|j: int| 0 <= j < i ==> cs@[j] != '.',
                    cs@[i as int] == '.',
                    out@ == cs@.subrange(0, k as int),
                decreases i - k,
            {
                out.push(cs[k]);
                k = k + 1;
                assert(out@ =~= cs@.subrange(0, k as int));
            }
            proof {
                let n = name@;
                assert(0 <= i < n.len() && n[i as int] == '.');
                let w = choose|w: int| 0 <= w < n.len() && n[w] == '.' && forall|j: int| 0 <= j < w ==> n[j] != '.';
                assert(cs@[i as int] == '.');
                if w < i {
                    assert(cs@[w] != '.');
                }
                if i < w {
                    assert(cs@[i as int] != '.');
                }
            }
            return string_of(&out);
        }
        i = i + 1;
    }
    let r = string_of(&cs);
    r
}

/// The pieces joined, with `sep` between each two.
pub open spec fn join(pieces: Seq<Seq<char>>, sep: char) -> Seq<char>
    decreases pieces.len(),
{
    if pieces.len() == 0 {
        Seq::empty()
    } else if pieces.len() == 1 {
        pieces[0]
    } else {
        join(pieces.drop_last(), sep).push(sep) + pieces.last()
    }
}

/// The arguments of a command line read as NUL-separated fields: every field
/// after the first, joined by spaces.
pub open spec fn cmdline_args(s: Seq<char>) -> Seq<char> {
    join(split(s, '\0').drop_first(), ' ')
}

/// The process described by a command line read from `/proc/<pid>/cmdline`:
/// none for an empty line; else its first NUL-separated field is the path,
/// and the others, joined by spaces, the arguments (none when that is empty).
pub fn parse_cmdline(pid: u64, cmdline: &str) -> (r: Option<Exec>)
    ensures
        cmdline@.len() == 0 ==> r is None,
        cmdline@.len() > 0 ==> (r matches Some(e) && e.pid == pid && e.path@ == split(cmdline@, '\0')[0]
            && (if cmdline_args(cmdline@).len() == 0 {
            e.arguments is None
        } else {
            e.arguments is Some && e.arguments->Some_0@ == cmdline_args(cmdline@)
        })),
{
    let cs = chars_of(cmdline);
    if cs.len() == 0 {
        return None;
    }
    let fields = split_chars(&cs, '\0');
    proof {
        lemma_split_nonempty(cs@, '\0');
    }
    let ghost sp = split(cs@, '\0');
    let mut args: Vec<char> = Vec::new();
    let mut i: usize = 1;
    while i < fields.len()
        invariant
            1 <= i <= fields@.len(),
            fields@.len() == sp.len(),
            forall|k: int| 0 <= k < fields@.len() ==> (#[trigger] fields@[k])@ == sp[k],
            args@ == join(sp.subrange(1, i as int), ' '),
        decreases fields@.len() - i,
    {
        let ghost prev = args@;
        if i > 1 {
            args.push(' ');
        }
        let piece = &fields[i];
        let mut j: usize = 0;
        while j < piece.len()
            invariant
                j <= piece@.len(),
                args@ == (if i > 1 { prev.push(' ') } else { prev }) + piece@.subrange(0, j as int),
            decreases piece@.len() - j,
        {
            args.push(piece[j]);
            j = j + 1;
            assert(args@ =~= (if i > 1 { prev.push(' ') } else { prev }) + piece@.subrange(0, j as int));
        }
        assert(piece@.subrange(0, j as int) =~= piece@);
        i = i + 1;
        let ghost part = sp.subrange(1, i as int);
        assert(part.drop_last() =~= sp.subrange(1, i - 1));
        if i - 1 == 1 {
            assert(sp.subrange(1, 1) =~= Seq::<Seq<char>>::empty());
            assert(args@ =~= join(part, ' '));
        } else {
            assert(args@ =~= join(part, ' '));
        }
    }
    assert(sp.subrange(1, i as int) =~= sp.drop_first());
    let path = string_of(&fields[0]);
    let arguments = if args.len() == 0 {
        None
    } else {
        Some(string_of(&args))
    };
    Some(Exec { pid, path, arguments })
}

/// The suffix rule over both catalogs: a normalised path leads to an
/// application exactly when it ends with the pattern of some built-in entry,
/// or, when the custom catalog's index can be built, of some custom entry.
pub proof fn lemma_scan_suffix_rule(s: ProcessServer, np: Seq<char>)
    requires
        s.wf(),
    ensures
        s.hit(np) is Some <==> some_suffix(catalog_entries(s.builtin()), np) || (builds(s.custom())
            && some_suffix(catalog_entries(s.custom()), np)),
{
    s.lemma_custom_ready();
    lemma_first_hit_iff(catalog_entries(s.builtin()), np);
    lemma_first_hit_iff(s.custom_entries(), np);
    if !s.custom_ready() {
        assert(!some_suffix(Seq::<Entry>::empty(), np));
    }
}

} // verus!
