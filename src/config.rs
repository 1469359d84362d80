use vstd::prelude::*;

use crate::error::{ConfigProblem, DotfoxError};
use crate::system::host_name;

verus! {

/// The host filter of an entry: one host name, or any of several.
pub enum Hostname {
    Single(String),
    Multiple(Vec<String>),
}

/// One rule of the configuration: a folder, applied where its filters match.
pub struct Programs {
    /// Required value of `"{OS}-{ARCH}"`, if any.
    pub os: Option<String>,
    pub hostname: Option<Hostname>,
    pub folder: String,
}

/// The declarative configuration: its rules in file order.
pub struct Config {
    pub config: Vec<Programs>,
}

/// The views of a vector of strings.
pub open spec fn views(v: Seq<String>) -> Seq<Seq<char>> {
    v.map_values(|s: String| s@)
}

pub open spec fn host_matches(h: Hostname, host: Seq<char>) -> bool {
    match h {
        Hostname::Single(s) => s@ == host,
        Hostname::Multiple(v) => views(v@).contains(host),
    }
}

pub open spec fn os_filter_matches(p: Programs, os: Seq<char>) -> bool {
    p.os is None || p.os->0@ == os
}

pub open spec fn host_filter_matches(p: Programs, host: Seq<char>) -> bool {
    p.hostname is None || host_matches(p.hostname->0, host)
}

/// An entry applies iff every filter it has matches.
pub open spec fn applies(p: Programs, os: Seq<char>, host: Seq<char>) -> bool {
    os_filter_matches(p, os) && host_filter_matches(p, host)
}

/// The folders of the entries that apply, in configuration order.
pub open spec fn selected(entries: Seq<Programs>, os: Seq<char>, host: Seq<char>) -> Seq<Seq<char>>
    decreases entries.len(),
{
    if entries.len() == 0 {
        seq![]
    } else {
        let rest = selected(entries.drop_last(), os, host);
        if applies(entries.last(), os, host) {
            rest.push(entries.last().folder@)
        } else {
            rest
        }
    }
}

/// The first occurrence of each element, in order.
pub open spec fn first_occurrences(s: Seq<Seq<char>>) -> Seq<Seq<char>>
    decreases s.len(),
{
    if s.len() == 0 {
        seq![]
    } else {
        let d = first_occurrences(s.drop_last());
        if d.contains(s.last()) {
            d
        } else {
            d.push(s.last())
        }
    }
}

/// The folders that apply on a host, each once, in first-seen order.
pub open spec fn resolved(entries: Seq<Programs>, os: Seq<char>, host: Seq<char>) -> Seq<
    Seq<char>,
> {
    first_occurrences(selected(entries, os, host))
}

/// The operating-system tag that `os` filters are compared with.
pub open spec fn os_tag(os: Seq<char>, arch: Seq<char>) -> Seq<char> {
    os + seq!['-'] + arch
}

/// Whether `v` holds a string equal to `s`.
pub fn contains_string(v: &Vec<String>, s: &String) -> (r: bool)
    ensures
        r == views(v@).contains(s@),
{
    let mut i: usize = 0;
    while i < v.len()
        invariant
            i <= v.len(),
            forall|k: int| 0 <= k < i ==> v@[k]@ != s@,
        decreases v.len() - i,
    {
        if v[i].eq(s) {
            assert(views(v@)[i as int] == s@);
            return true;
        }
        i += 1;
    }
    proof {
        if views(v@).contains(s@) {
            let k = choose|k: int| 0 <= k < views(v@).len() && views(v@)[k] == s@;
            assert(v@[k]@ == s@);
        }
    }
    false
}

impl Hostname {
    pub fn matches(&self, host: &String) -> (r: bool)
        ensures
            r == host_matches(*self, host@),
    {
        match self {
            Hostname::Single(s) => s.eq(host),
            Hostname::Multiple(v) => contains_string(v, host),
        }
    }
}

impl Programs {
    pub fn new(os: Option<String>, hostname: Option<Hostname>, folder: String) -> (r: Programs)
        ensures
            r == (Programs { os, hostname, folder }),
    {
        Programs { os, hostname, folder }
    }

    /// Whether this entry applies on the host with the given tag and name.
    pub fn applies_to(&self, current_os: &String, hostname: &String) -> (r: bool)
        ensures
            r == applies(*self, current_os@, hostname@),
    {
        let os_ok = match &self.os {
            None => true,
            Some(o) => o.eq(current_os),
        };
        let host_ok = match &self.hostname {
            None => true,
            Some(h) => h.matches(hostname),
        };
        os_ok && host_ok
    }
}

/// `"{os}-{arch}"`, the tag that `os` filters name.
pub fn current_os_tag(os: &str, arch: &str) -> (r: String)
    ensures
        r@ == os_tag(os@, arch@),
{
    let s = String::from_str(os);
    let s = s.concat("-");
    proof {
        reveal_strlit("-");
    }
    s.concat(arch)
}

impl Config {
    /// The folders that apply on the host with tag `current_os` and name
    /// `hostname`, each once, in configuration order.
    pub fn resolve_folders(&self, current_os: &String, hostname: &String) -> (r: Vec<String>)
        ensures
            views(r@) == resolved(self.config@, current_os@, hostname@),
    {
        let mut out: Vec<String> = Vec::new();
        let mut i: usize = 0;
        while i < self.config.len()
            invariant
                i <= self.config.len(),
                views(out@) == resolved(
                    self.config@.subrange(0, i as int),
                    current_os@,
                    hostname@,
                ),
            decreases self.config.len() - i,
        {
            let ghost before = self.config@.subrange(0, i as int);
            let ghost after = self.config@.subrange(0, i + 1);
            assert(after.drop_last() =~= before);
            assert(after.last() == self.config@[i as int]);
            let ghost sel = selected(before, current_os@, hostname@);
            let e = &self.config[i];
            proof {
                assert(sel.push(e.folder@).drop_last() =~= sel);
                assert(sel.push(e.folder@).last() == e.folder@);
            }
            if e.applies_to(current_os, hostname) {
                if !contains_string(&out, &e.folder) {
                    let ghost old_out = out@;
                    out.push(e.folder.clone());
                    assert(views(out@) =~= views(old_out).push(e.folder@));
                }
            }
            i += 1;
        }
        assert(self.config@.subrange(0, self.config.len() as int) =~= self.config@);
        out
    }

    /// The folders that apply on this machine, whose operating system and
    /// architecture are `os` and `arch`; fails if the host name cannot be
    /// determined.
    pub fn folders(self, os: &str, arch: &str) -> (r: Result<Vec<String>, DotfoxError>)
        ensures
            r is Err ==> r == Err::<Vec<String>, DotfoxError>(
                DotfoxError::Config(ConfigProblem::Hostname),
            ),
            r is Ok ==> exists|host: Seq<char>|
                views(r->Ok_0@) == resolved(self.config@, os_tag(os@, arch@), host),
    {
        match host_name() {
            None => Err(DotfoxError::Config(ConfigProblem::Hostname)),
            Some(host) => {
                let tag = current_os_tag(os, arch);
                let v = self.resolve_folders(&tag, &host);
                assert(views(v@) == resolved(self.config@, os_tag(os@, arch@), host@));
                Ok(v)
            },
        }
    }
}

proof fn lemma_first_occurrences_contains(s: Seq<Seq<char>>, x: Seq<char>)
    ensures
        first_occurrences(s).contains(x) <==> s.contains(x),
    decreases s.len(),
{
    if s.len() > 0 {
        lemma_first_occurrences_contains(s.drop_last(), x);
        let d = first_occurrences(s.drop_last());
        if s.contains(x) {
            let k = choose|k: int| 0 <= k < s.len() && s[k] == x;
            if k < s.len() - 1 {
                assert(s.drop_last()[k] == x);
            }
        }
        if s.drop_last().contains(x) {
            let k = choose|k: int| 0 <= k < s.len() - 1 && s.drop_last()[k] == x;
            assert(s[k] == x);
        }
        if !d.contains(s.last()) {
            if d.push(s.last()).contains(x) {
                let k = choose|k: int| 0 <= k < d.len() + 1 && d.push(s.last())[k] == x;
                if k < d.len() {
                    assert(d[k] == x);
                }
            }
            if d.contains(x) {
                let k = choose|k: int| 0 <= k < d.len() && d[k] == x;
                assert(d.push(s.last())[k] == x);
            }
            assert(d.push(s.last())[d.len() as int] == s.last());
        }
        assert(s[s.len() - 1] == s.last());
    }
}

proof fn lemma_first_occurrences_distinct(s: Seq<Seq<char>>)
    ensures
        first_occurrences(s).no_duplicates(),
    decreases s.len(),
{
    if s.len() > 0 {
        lemma_first_occurrences_distinct(s.drop_last());
        let d = first_occurrences(s.drop_last());
        if !d.contains(s.last()) {
            let e = d.push(s.last());
            assert forall|i: int, j: int| 0 <= i < e.len() && 0 <= j < e.len() && i != j implies e[i]
                != e[j] by {
                if i < d.len() && j < d.len() {
                } else if i < d.len() {
                    assert(d.contains(d[i]));
                } else {
                    assert(d.contains(d[j]));
                }
            }
        }
    }
}

proof fn lemma_first_occurrences_of_distinct(s: Seq<Seq<char>>)
    requires
        s.no_duplicates(),
    ensures
        first_occurrences(s) == s,
    decreases s.len(),
{
    if s.len() > 0 {
        let p = s.drop_last();
        assert(p.no_duplicates());
        lemma_first_occurrences_of_distinct(p);
        if p.contains(s.last()) {
            let k = choose|k: int| 0 <= k < p.len() && p[k] == s.last();
            assert(s[k] == s[s.len() - 1]);
        }
        assert(p.push(s.last()) =~= s);
    }
}

proof fn lemma_selected_contains(entries: Seq<Programs>, i: int, os: Seq<char>, host: Seq<char>)
    requires
        0 <= i < entries.len(),
        applies(entries[i], os, host),
    ensures
        selected(entries, os, host).contains(entries[i].folder@),
    decreases entries.len(),
{
    let rest = selected(entries.drop_last(), os, host);
    if i == entries.len() - 1 {
        assert(rest.push(entries.last().folder@)[rest.len() as int] == entries[i].folder@);
    } else {
        assert(entries.drop_last()[i] == entries[i]);
        lemma_selected_contains(entries.drop_last(), i, os, host);
        if applies(entries.last(), os, host) {
            let k = choose|k: int| 0 <= k < rest.len() && rest[k] == entries[i].folder@;
            assert(rest.push(entries.last().folder@)[k] == entries[i].folder@);
        }
    }
}

/// An entry with neither an `os` nor a `hostname` filter has its folder
/// resolved on every host.
pub proof fn lemma_unfiltered_entry_always_resolved(
    entries: Seq<Programs>,
    i: int,
    os: Seq<char>,
    host: Seq<char>,
)
    requires
        0 <= i < entries.len(),
        entries[i].os is None,
        entries[i].hostname is None,
    ensures
        resolved(entries, os, host).contains(entries[i].folder@),
{
    lemma_selected_contains(entries, i, os, host);
    lemma_first_occurrences_contains(selected(entries, os, host), entries[i].folder@);
}

/// An entry with both filters applies only where both match: alone in a
/// configuration, it resolves to its folder where both match and to nothing
/// where either does not.
pub proof fn lemma_both_filters_must_match(p: Programs, os: Seq<char>, host: Seq<char>)
    requires
        p.os is Some,
        p.hostname is Some,
    ensures
        applies(p, os, host) <==> (p.os->0@ == os && host_matches(p.hostname->0, host)),
        resolved(seq![p], os, host) == (if p.os->0@ == os && host_matches(p.hostname->0, host) {
            seq![p.folder@]
        } else {
            Seq::<Seq<char>>::empty()
        }),
{
    let s = seq![p];
    assert(s.drop_last() =~= Seq::<Programs>::empty());
    assert(s.last() == p);
    let sel = selected(s, os, host);
    let none = Seq::<Seq<char>>::empty();
    assert(selected(s.drop_last(), os, host) == none);
    if applies(p, os, host) {
        let one = none.push(p.folder@);
        assert(sel == one);
        assert(one.drop_last() =~= none);
        assert(one.last() == p.folder@);
        assert(first_occurrences(none) == none);
        assert(!none.contains(p.folder@));
        assert(first_occurrences(one) == one);
        assert(one =~= seq![p.folder@]);
    } else {
        assert(sel == none);
    }
}

/// Resolution is idempotent: its result holds no folder twice, and resolving
/// that result again changes nothing.
pub proof fn lemma_resolution_idempotent(entries: Seq<Programs>, os: Seq<char>, host: Seq<char>)
    ensures
        resolved(entries, os, host).no_duplicates(),
        first_occurrences(resolved(entries, os, host)) == resolved(entries, os, host),
{
    lemma_first_occurrences_distinct(selected(entries, os, host));
    lemma_first_occurrences_of_distinct(resolved(entries, os, host));
}

} // verus!
