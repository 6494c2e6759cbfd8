//! The catalog index: every non-launcher executable of a catalog becomes a
//! normalised, reversed pattern, and a multi-pattern automaton finds, in one
//! pass over a reversed process path, the first pattern the path ends with.
use vstd::prelude::*;
use aho_corasick::AhoCorasick;
use crate::codec::{le_bytes, lemma_le_round_trip};
use crate::detection::{DetectableActivity, Executable};
use crate::text::{chars_of, is_prefix, is_suffix, lower_of, lowercase, replace_char, replaced, reversed, string_of};

verus! {

#[verifier::external_type_specification]
#[verifier::external_body]
pub struct ExAhoCorasick(AhoCorasick);

/// The byte patterns an automaton was built from, in the order given.
pub uninterp spec fn ac_patterns(ac: AhoCorasick) -> Seq<Seq<u8>>;

/// The automaton was built for anchored, leftmost-first searches.
pub uninterp spec fn ac_anchored_first(ac: AhoCorasick) -> bool;

/// An anchored, leftmost-first automaton can be built over these patterns:
/// they stay within the automaton's limits on patterns and states.
pub uninterp spec fn ac_builds(pats: Seq<Seq<u8>>) -> bool;

/// `p` is a prefix of `h`, as bytes.
pub open spec fn bytes_prefix(p: Seq<u8>, h: Seq<u8>) -> bool {
    p.len() <= h.len() && h.subrange(0, p.len() as int) == p
}

/// `r` is the index of the first of `pats` that is a prefix of `h`, or none
/// when no pattern is.
pub open spec fn first_prefix(pats: Seq<Seq<u8>>, h: Seq<u8>, r: Option<usize>) -> bool {
    match r {
        Some(k) => k < pats.len() && bytes_prefix(pats[k as int], h) && forall|j: int|
            0 <= j < k ==> !bytes_prefix(#[trigger] pats[j], h),
        None => forall|j: int| 0 <= j < pats.len() ==> !bytes_prefix(#[trigger] pats[j], h),
    }
}

/// Relies on `AhoCorasickBuilder::build` with leftmost-first matching and
/// anchored starts: whether it succeeds depends on the patterns alone, and on
/// success the automaton holds the given patterns in order.
#[verifier::external_body]
fn build_matcher(patterns: &Vec<Vec<u8>>) -> (r: Option<AhoCorasick>)
    ensures
        r is Some <==> ac_builds(patterns@.map_values(|p: Vec<u8>| p@)),
        r matches Some(ac) ==> ac_anchored_first(ac) && ac_patterns(ac) == patterns@.map_values(
            |p: Vec<u8>| p@,
        ),
{
    AhoCorasick::builder()
        .match_kind(aho_corasick::MatchKind::LeftmostFirst)
        .start_kind(aho_corasick::StartKind::Anchored)
        .build(patterns)
        .ok()
}

/// Relies on `AhoCorasick::find` with an anchored input: under leftmost-first
/// semantics the match starts at the beginning of the haystack and is the
/// earliest-given pattern that matches there.
#[verifier::external_body]
fn find_first_prefix(ac: &AhoCorasick, hay: &Vec<u8>) -> (r: Option<usize>)
    requires
        ac_anchored_first(*ac),
    ensures
        first_prefix(ac_patterns(*ac), hay@, r),
{
    ac.find(aho_corasick::Input::new(hay).anchored(aho_corasick::Anchored::Yes)).map(
        |m| m.pattern().as_usize(),
    )
}

/// Four little-endian bytes for each character: a fixed-width encoding, so
/// that prefixes of the encoding are encodings of prefixes.
pub open spec fn wide(s: Seq<char>) -> Seq<u8>
    decreases s.len(),
{
    if s.len() == 0 {
        Seq::empty()
    } else {
        wide(s.drop_last()) + le_bytes(s.last() as u32)
    }
}

proof fn lemma_wide_len(s: Seq<char>)
    ensures
        wide(s).len() == 4 * s.len(),
    decreases s.len(),
{
    if s.len() > 0 {
        lemma_wide_len(s.drop_last());
    }
}

proof fn lemma_wide_concat(a: Seq<char>, b: Seq<char>)
    ensures
        wide(a + b) == wide(a) + wide(b),
    decreases b.len(),
{
    if b.len() == 0 {
        assert(a + b =~= a);
        assert(wide(a) + wide(b) =~= wide(a));
    } else {
        assert((a + b).drop_last() =~= a + b.drop_last());
        lemma_wide_concat(a, b.drop_last());
        assert(wide(a + b) =~= wide(a) + wide(b));
    }
}

proof fn lemma_wide_cons(c: char, s: Seq<char>)
    ensures
        wide(seq![c] + s) == le_bytes(c as u32) + wide(s),
{
    lemma_wide_concat(seq![c], s);
    assert(seq![c].drop_last() =~= Seq::<char>::empty());
    assert(seq![c].last() == c);
    assert(wide(Seq::<char>::empty()) =~= Seq::<u8>::empty());
    assert(wide(seq![c]) =~= le_bytes(c as u32));
}

proof fn lemma_le_bytes_injective(x: u32, y: u32)
    requires
        le_bytes(x) == le_bytes(y),
    ensures
        x == y,
{
    lemma_le_round_trip(x);
    lemma_le_round_trip(y);
}

/// Prefixes of the fixed-width encoding are exactly encodings of prefixes.
pub proof fn lemma_wide_prefix(p: Seq<char>, h: Seq<char>)
    ensures
        bytes_prefix(wide(p), wide(h)) <==> is_prefix(p, h),
    decreases p.len(),
{
    lemma_wide_len(p);
    lemma_wide_len(h);
    if is_prefix(p, h) {
        let rest = h.subrange(p.len() as int, h.len() as int);
        assert(h =~= p + rest);
        lemma_wide_concat(p, rest);
        assert(wide(h).subrange(0, wide(p).len() as int) =~= wide(p));
    }
    if bytes_prefix(wide(p), wide(h)) && p.len() > 0 {
        assert(h.len() >= p.len());
        let c = p[0];
        let d = h[0];
        let p_rest = p.drop_first();
        let h_rest = h.drop_first();
        assert(p =~= seq![c] + p_rest);
        assert(h =~= seq![d] + h_rest);
        lemma_wide_cons(c, p_rest);
        lemma_wide_cons(d, h_rest);
        lemma_wide_len(p_rest);
        lemma_wide_len(h_rest);
        assert(le_bytes((c as u32)) =~= wide(p).subrange(0, 4));
        assert(wide(h).subrange(0, 4) =~= le_bytes(d as u32));
        assert(wide(h).subrange(0, wide(p).len() as int).subrange(0, 4) =~= wide(h).subrange(0, 4));
        lemma_le_bytes_injective(c as u32, d as u32);
        vstd::utf8::char_u32_cast(c, c as u32);
        vstd::utf8::char_u32_cast(d, d as u32);
        assert(c == d);
        assert(wide(h_rest).subrange(0, wide(p_rest).len() as int) =~= wide(h).subrange(
            4,
            wide(p).len() as int,
        ));
        assert(wide(p_rest) =~= wide(p).subrange(4, wide(p).len() as int));
        assert(wide(h).subrange(4, wide(p).len() as int) =~= wide(h).subrange(
            0,
            wide(p).len() as int,
        ).subrange(4, wide(p).len() as int));
        assert(bytes_prefix(wide(p_rest), wide(h_rest)));
        lemma_wide_prefix(p_rest, h_rest);
        assert(h.subrange(0, p.len() as int) =~= seq![c] + h_rest.subrange(0, p_rest.len() as int));
        assert(is_prefix(p, h));
    }
    if p.len() == 0 {
        assert(h.subrange(0, 0) =~= p);
        assert(wide(h).subrange(0, 0) =~= wide(p));
    }
}

/// The reverse of `q` starts the reverse of `s` exactly when `s` ends with `q`.
pub proof fn lemma_reverse_prefix(q: Seq<char>, s: Seq<char>)
    ensures
        is_prefix(q.reverse(), s.reverse()) <==> is_suffix(q, s),
{
    if is_suffix(q, s) {
        assert(s.reverse().subrange(0, q.len() as int) =~= q.reverse());
    }
    if is_prefix(q.reverse(), s.reverse()) {
        assert forall|i: int| 0 <= i < q.len() implies s.subrange(
            s.len() - q.len(),
            s.len() as int,
        )[i] == q[i] by {
            assert(s.reverse().subrange(0, q.len() as int)[q.len() - 1 - i] == q.reverse()[q.len()
                - 1 - i]);
        }
        assert(s.subrange(s.len() - q.len(), s.len() as int) =~= q);
    }
}

/// How a process path is matched: the stored form of pattern `q` is the
/// encoding of its reverse, and it starts the encoding of the reversed path
/// `s` exactly when `s` ends with `q`.
pub proof fn lemma_match_suffix_rule(q: Seq<char>, s: Seq<char>)
    ensures
        bytes_prefix(wide(q.reverse()), wide(s.reverse())) <==> is_suffix(q, s),
{
    lemma_wide_prefix(q.reverse(), s.reverse());
    lemma_reverse_prefix(q, s);
}

/// A path or pattern with separators made `/` after case folding.
pub open spec fn normalise(s: Seq<char>) -> Seq<char> {
    replace_char(lower_of(s), '\\', '/')
}

/// An executable name that starts with `>` asks for an argument check.
pub open spec fn is_gated(name: Seq<char>) -> bool {
    name.len() > 0 && name[0] == '>'
}

/// The pattern derived from an executable name: the `>` marker becomes `/`,
/// otherwise a `/` is put in front unless the normalised name starts with one.
pub open spec fn pattern_of(name: Seq<char>) -> Seq<char> {
    if is_gated(name) {
        seq!['/'] + normalise(name.drop_first())
    } else if normalise(name).len() > 0 && normalise(name)[0] == '/' {
        normalise(name)
    } else {
        seq!['/'] + normalise(name)
    }
}

/// The normalised characters of `s`.
pub fn normalised(s: &str) -> (r: Vec<char>)
    ensures
        r@ == normalise(s@),
{
    let lower = lowercase(s);
    let cs = chars_of(lower.as_str());
    replaced(&cs, '\\', '/')
}

fn drop_first_char(cs: &Vec<char>) -> (r: Vec<char>)
    requires
        cs@.len() > 0,
    ensures
        r@ == cs@.drop_first(),
{
    let mut r: Vec<char> = Vec::new();
    let mut i: usize = 1;
    while i < cs.len()
        invariant
            1 <= i <= cs@.len(),
            r@ == cs@.subrange(1, i as int),
        decreases cs@.len() - i,
    {
        r.push(cs[i]);
        i = i + 1;
        assert(r@ =~= cs@.subrange(1, i as int));
    }
    assert(cs@.subrange(1, i as int) =~= cs@.drop_first());
    r
}

fn slash_then(cs: Vec<char>) -> (r: Vec<char>)
    ensures
        r@ == seq!['/'] + cs@,
{
    let mut r: Vec<char> = Vec::new();
    r.push('/');
    let mut i: usize = 0;
    while i < cs.len()
        invariant
            i <= cs@.len(),
            r@ == seq!['/'] + cs@.subrange(0, i as int),
        decreases cs@.len() - i,
    {
        r.push(cs[i]);
        i = i + 1;
        assert(r@ =~= seq!['/'] + cs@.subrange(0, i as int));
    }
    assert(cs@.subrange(0, i as int) =~= cs@);
    r
}

/// The pattern of an executable name.
pub fn exe_pattern(name: &String) -> (r: Vec<char>)
    ensures
        r@ == pattern_of(name@),
{
    let cs = chars_of(name.as_str());
    if cs.len() > 0 && cs[0] == '>' {
        let rest = string_of(&drop_first_char(&cs));
        slash_then(normalised(rest.as_str()))
    } else {
        let n = normalised(name.as_str());
        if n.len() > 0 && n[0] == '/' {
            n
        } else {
            slash_then(n)
        }
    }
}

/// A derived pattern starts with `/` and holds no backslash.
pub proof fn lemma_pattern_shape(name: Seq<char>)
    ensures
        pattern_of(name).len() > 0,
        pattern_of(name)[0] == '/',
        forall|i: int| 0 <= i < pattern_of(name).len() ==> pattern_of(name)[i] != '\\',
{
    let p = pattern_of(name);
    if is_gated(name) {
        assert forall|i: int| 0 <= i < p.len() implies p[i] != '\\' by {
            if i > 0 {
                assert(p[i] == normalise(name.drop_first())[i - 1]);
            }
        }
    } else if normalise(name).len() > 0 && normalise(name)[0] == '/' {
    } else {
        assert forall|i: int| 0 <= i < p.len() implies p[i] != '\\' by {
            if i > 0 {
                assert(p[i] == normalise(name)[i - 1]);
            }
        }
    }
}

/// One indexed executable: its pattern, the application's position in the
/// catalog and the executable's position in that application.
pub type Entry = (Seq<char>, int, int);

/// The entries of the executables of one application, launchers left out.
pub open spec fn exe_entries(exes: Seq<Executable>, ai: int) -> Seq<Entry>
    decreases exes.len(),
{
    if exes.len() == 0 {
        Seq::empty()
    } else {
        exe_entries(exes.drop_last(), ai) + if exes.last().is_launcher {
            Seq::<Entry>::empty()
        } else {
            seq![(pattern_of(exes.last().name@), ai, exes.len() - 1)]
        }
    }
}

/// The entries of one application.
pub open spec fn app_entries(app: DetectableActivity, ai: int) -> Seq<Entry> {
    match app.executables {
        Some(v) => exe_entries(v@, ai),
        None => Seq::empty(),
    }
}

/// The entries of a catalog, application by application, executable by
/// executable.
pub open spec fn catalog_entries(apps: Seq<DetectableActivity>) -> Seq<Entry>
    decreases apps.len(),
{
    if apps.len() == 0 {
        Seq::empty()
    } else {
        catalog_entries(apps.drop_last()) + app_entries(apps.last(), apps.len() - 1)
    }
}

/// The index of a catalog can be compiled: it has no patterns, or the
/// automaton builds over them.
pub open spec fn builds(apps: Seq<DetectableActivity>) -> bool {
    catalog_entries(apps).len() == 0 || ac_builds(stored(catalog_entries(apps)))
}

/// What the automaton is given for each entry: its reversed pattern, encoded.
pub open spec fn stored(ents: Seq<Entry>) -> Seq<Seq<u8>> {
    ents.map_values(|e: Entry| wide(e.0.reverse()))
}

/// `r` names the application and executable of the first entry whose pattern
/// `s` ends with, or none when no pattern fits.
pub open spec fn first_suffix(ents: Seq<Entry>, s: Seq<char>, r: Option<(usize, usize)>) -> bool {
    match r {
        Some((a, e)) => exists|k: int|
            0 <= k < ents.len() && is_suffix(#[trigger] ents[k].0, s) && ents[k].1 == a
                && ents[k].2 == e && forall|j: int| 0 <= j < k ==> !is_suffix(#[trigger] ents[j].0, s),
        None => forall|j: int| 0 <= j < ents.len() ==> !is_suffix(#[trigger] ents[j].0, s),
    }
}

/// The encoding of `cs`.
pub fn wide_bytes(cs: &Vec<char>) -> (r: Vec<u8>)
    ensures
        r@ == wide(cs@),
{
    let mut r: Vec<u8> = Vec::new();
    let mut i: usize = 0;
    while i < cs.len()
        invariant
            i <= cs@.len(),
            r@ == wide(cs@.subrange(0, i as int)),
        decreases cs@.len() - i,
    {
        let v = cs[i] as u32;
        r.push((v % 0x100) as u8);
        r.push(((v / 0x100) % 0x100) as u8);
        r.push((((v / 0x100) / 0x100) % 0x100) as u8);
        r.push((((v / 0x100) / 0x100) / 0x100) as u8);
        i = i + 1;
        assert(cs@.subrange(0, i as int).drop_last() =~= cs@.subrange(0, i - 1));
        assert(r@ =~= wide(cs@.subrange(0, i as int)));
    }
    assert(cs@.subrange(0, i as int) =~= cs@);
    r
}

/// A compiled index over a list of applications.
pub struct CatalogIndex {
    matcher: Option<AhoCorasick>,
    table: Vec<(usize, usize)>,
    entries: Ghost<Seq<Entry>>,
}

impl View for CatalogIndex {
    type V = Seq<Entry>;

    closed spec fn view(&self) -> Seq<Entry> {
        self.entries@
    }
}

impl CatalogIndex {
    /// The table and the automaton agree with the entries.
    pub closed spec fn wf(&self) -> bool {
        &&& self.table@.len() == self.entries@.len()
        &&& forall|k: int|
            0 <= k < self.table@.len() ==> (#[trigger] self.table@[k]).0 == self.entries@[k].1
                && self.table@[k].1 == self.entries@[k].2
        &&& match self.matcher {
            Some(ac) => ac_anchored_first(ac) && ac_patterns(ac) == stored(self.entries@),
            None => self.entries@.len() == 0,
        }
    }

    /// An index with no entries.
    pub fn empty() -> (r: CatalogIndex)
        ensures
            r.wf(),
            r@ == Seq::<Entry>::empty(),
    {
        CatalogIndex { matcher: None, table: Vec::new(), entries: Ghost(Seq::empty()) }
    }

    /// Compiles the index of `apps`. It is `None` exactly when the catalog
    /// has patterns and the automaton cannot be built over them.
    pub fn build(apps: &Vec<DetectableActivity>) -> (r: Option<CatalogIndex>)
        ensures
            r matches Some(ix) ==> ix.wf() && ix@ == catalog_entries(apps@),
            r is Some <==> builds(apps@),
    {
        let mut pats: Vec<Vec<u8>> = Vec::new();
        let mut table: Vec<(usize, usize)> = Vec::new();
        let ghost mut ents: Seq<Entry> = Seq::empty();
        let mut ai: usize = 0;
        while ai < apps.len()
            invariant
                ai <= apps@.len(),
                ents == catalog_entries(apps@.subrange(0, ai as int)),
                pats@.map_values(|p: Vec<u8>| p@) == stored(ents),
                table@.len() == ents.len(),
                forall|k: int|
                    0 <= k < table@.len() ==> (#[trigger] table@[k]).0 == ents[k].1 && table@[k].1
                        == ents[k].2,
            decreases apps@.len() - ai,
        {
            let ghost before = ents;
            match &apps[ai].executables {
                Some(exes) => {
                    let mut ei: usize = 0;
                    while ei < exes.len()
                        invariant
                            ai < apps@.len(),
                            ei <= exes@.len(),
                            apps@[ai as int].executables == Some(*exes),
                            ents == before + exe_entries(exes@.subrange(0, ei as int), ai as int),
                            pats@.map_values(|p: Vec<u8>| p@) == stored(ents),
                            table@.len() == ents.len(),
                            forall|k: int|
                                0 <= k < table@.len() ==> (#[trigger] table@[k]).0 == ents[k].1
                                    && table@[k].1 == ents[k].2,
                        decreases exes@.len() - ei,
                    {
                        let ghost prev = ents;
                        assert(exes@.subrange(0, ei + 1).drop_last() =~= exes@.subrange(0, ei as int));
                        if !exes[ei].is_launcher {
                            let pat = exe_pattern(&exes[ei].name);
                            let rev = reversed(&pat);
                            let enc = wide_bytes(&rev);
                            let ghost oldp = pats@;
                            let ghost e: Entry = (pattern_of(exes@[ei as int].name@), ai as int, ei as int);
                            assert(enc@ == wide(e.0.reverse()));
                            pats.push(enc);
                            table.push((ai, ei));
                            proof {
                                ents = prev.push(e);
                                assert(stored(ents) =~= stored(prev).push(wide(e.0.reverse())));
                                assert(pats@.map_values(|p: Vec<u8>| p@) =~= oldp.map_values(
                                    |p: Vec<u8>| p@,
                                ).push(enc@));
                                assert(pats@.map_values(|p: Vec<u8>| p@) =~= stored(ents));
                            }
                        }
                        ei = ei + 1;
                        assert(ents =~= before + exe_entries(exes@.subrange(0, ei as int), ai as int));
                    }
                    assert(exes@.subrange(0, ei as int) =~= exes@);
                },
                None => {},
            }
            ai = ai + 1;
            assert(apps@.subrange(0, ai as int).drop_last() =~= apps@.subrange(0, ai - 1));
            assert(ents =~= catalog_entries(apps@.subrange(0, ai as int)));
        }
        assert(apps@.subrange(0, ai as int) =~= apps@);
        if pats.len() == 0 {
            return Some(CatalogIndex { matcher: None, table, entries: Ghost(ents) });
        }
        match build_matcher(&pats) {
            Some(ac) => Some(CatalogIndex { matcher: Some(ac), table, entries: Ghost(ents) }),
            None => None,
        }
    }

    /// The application and executable of the first entry whose pattern the
    /// normalised path `path` ends with.
    pub fn lookup(&self, path: &Vec<char>) -> (r: Option<(usize, usize)>)
        requires
            self.wf(),
        ensures
            first_suffix(self@, path@, r),
            r matches Some((a, e)) ==> exists|k: int|
                0 <= k < self@.len() && #[trigger] self@[k].1 == a && self@[k].2 == e,
    {
        match &self.matcher {
            None => None,
            Some(ac) => {
                let rev = reversed(path);
                let hay = wide_bytes(&rev);
                let found = find_first_prefix(ac, &hay);
                let ghost ents = self.entries@;
                assert forall|j: int| 0 <= j < ents.len() implies bytes_prefix(
                    #[trigger] stored(ents)[j],
                    hay@,
                ) == is_suffix(ents[j].0, path@) by {
                    lemma_match_suffix_rule(ents[j].0, path@);
                }
                match found {
                    Some(k) => {
                        assert(is_suffix(ents[k as int].0, path@));
                        assert forall|j: int| 0 <= j < k implies !is_suffix(#[trigger] ents[j].0, path@) by {
                            assert(!bytes_prefix(stored(ents)[j], hay@));
                        }
                        Some(self.table[k])
                    },
                    None => {
                        assert forall|j: int| 0 <= j < ents.len() implies !is_suffix(#[trigger] ents[j].0, path@) by {
                            assert(!bytes_prefix(stored(ents)[j], hay@));
                        }
                        None
                    },
                }
            },
        }
    }
}

} // verus!
