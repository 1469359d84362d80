use vstd::prelude::*;

use crate::error::DotfoxError;
use crate::paths::{
    join, join_path, lemma_lex_asymmetric, lemma_lex_irreflexive, lemma_lex_total,
    lemma_lex_transitive, lex_lt, path_lt,
};

verus! {

/// A planned link as paths: `(source, target)`.
pub type Link = (Seq<char>, Seq<char>);

/// One planned link: `target` is to become a symbolic link to `source`.
pub struct LinkMap {
    pub source: String,
    pub target: String,
}

impl View for LinkMap {
    type V = Link;

    open spec fn view(&self) -> Link {
        (self.source@, self.target@)
    }
}

impl LinkMap {
    pub fn new(source: &str, target: &str) -> (r: LinkMap)
        ensures
            r@ == (source@, target@),
    {
        LinkMap { source: String::from_str(source), target: String::from_str(target) }
    }
}

/// A link as reported after checking it: `tainted` once its target is found
/// to point elsewhere.
pub struct VerifyMap {
    pub source: String,
    pub target: String,
    pub tainted: bool,
}

impl VerifyMap {
    pub fn new(source: &str, target: &str) -> (r: VerifyMap)
        ensures
            r.source@ == source@,
            r.target@ == target@,
            !r.tainted,
    {
        VerifyMap { source: String::from_str(source), target: String::from_str(target), tainted: false }
    }

    pub fn taint(&mut self)
        ensures
            final(self).source == old(self).source,
            final(self).target == old(self).target,
            final(self).tainted,
    {
        self.tainted = true;
    }
}

/// An entry found in a directory: its file name and its full path.
pub struct DirEntryInfo {
    pub name: String,
    pub path: String,
}

/// An immediate child of a source folder. For a child named `.config`,
/// `nested` lists its own children; for any other it is ignored.
pub struct ChildEntry {
    pub name: String,
    pub path: String,
    pub nested: Vec<DirEntryInfo>,
}

/// The immediate children of one resolved source folder.
pub struct FolderListing {
    pub children: Vec<ChildEntry>,
}

/// The name of a folder whose children are linked under the XDG config root.
pub open spec fn config_dir_name() -> Seq<char> {
    ".config"@
}

/// Whether a child named `name` is linked through its own children, under
/// the XDG config root.
pub fn is_config_dir_name(name: &String) -> (r: bool)
    ensures
        r == (name@ == config_dir_name()),
{
    let c = String::from_str(".config");
    name.eq(&c)
}

pub open spec fn link_views(s: Seq<LinkMap>) -> Seq<Link> {
    s.map_values(|m: LinkMap| m@)
}

/// The links of the children of a `.config` folder.
pub open spec fn nested_links(entries: Seq<DirEntryInfo>, config_root: Seq<char>) -> Seq<Link> {
    entries.map_values(|g: DirEntryInfo| (g.path@, join_path(config_root, g.name@)))
}

/// The links one child of a source folder gives.
pub open spec fn child_links(c: ChildEntry, home_root: Seq<char>, config_root: Seq<char>) -> Seq<
    Link,
> {
    if c.name@ == config_dir_name() {
        nested_links(c.nested@, config_root)
    } else {
        seq![(c.path@, join_path(home_root, c.name@))]
    }
}

/// The links of a folder's children, in enumeration order.
pub open spec fn folder_links(
    children: Seq<ChildEntry>,
    home_root: Seq<char>,
    config_root: Seq<char>,
) -> Seq<Link>
    decreases children.len(),
{
    if children.len() == 0 {
        seq![]
    } else {
        folder_links(children.drop_last(), home_root, config_root) + child_links(
            children.last(),
            home_root,
            config_root,
        )
    }
}

/// Every candidate link of the resolved folders, in enumeration order.
pub open spec fn all_links(
    folders: Seq<FolderListing>,
    home_root: Seq<char>,
    config_root: Seq<char>,
) -> Seq<Link>
    decreases folders.len(),
{
    if folders.len() == 0 {
        seq![]
    } else {
        all_links(folders.drop_last(), home_root, config_root) + folder_links(
            folders.last().children@,
            home_root,
            config_root,
        )
    }
}

/// Two entries claim one target.
pub open spec fn has_conflict(s: Seq<Link>) -> bool {
    exists|i: int, j: int| 0 <= i < j < s.len() && s[i].1 == s[j].1
}

/// Targets strictly ascending.
pub open spec fn sorted_by_target(s: Seq<Link>) -> bool {
    forall|i: int, j: int| 0 <= i < j < s.len() ==> lex_lt(s[i].1, s[j].1)
}

/// The same links, as many of them.
pub open spec fn same_links(a: Seq<Link>, b: Seq<Link>) -> bool {
    a.len() == b.len() && forall|y: Link| a.contains(y) <==> b.contains(y)
}

pub open spec fn result_views(r: Result<Vec<LinkMap>, DotfoxError>) -> Result<
    Seq<Link>,
    DotfoxError,
> {
    match r {
        Ok(v) => Ok(link_views(v@)),
        Err(e) => Err(e),
    }
}

/// What planning yields: `NoFiles` where there is no candidate, `Conflict`
/// where two candidates share a target, and otherwise every candidate,
/// ordered by target.
pub open spec fn planned(
    folders: Seq<FolderListing>,
    home_root: Seq<char>,
    config_root: Seq<char>,
    r: Result<Seq<Link>, DotfoxError>,
) -> bool {
    let c = all_links(folders, home_root, config_root);
    if c.len() == 0 {
        r == Err::<Seq<Link>, DotfoxError>(DotfoxError::NoFiles)
    } else if has_conflict(c) {
        r == Err::<Seq<Link>, DotfoxError>(DotfoxError::Conflict)
    } else {
        r is Ok && sorted_by_target(r->Ok_0) && same_links(r->Ok_0, c)
    }
}

fn collect_nested(entries: &Vec<DirEntryInfo>, config_root: &String, out: &mut Vec<LinkMap>)
    ensures
        link_views(final(out)@) == link_views(old(out)@) + nested_links(entries@, config_root@),
{
    let ghost start = link_views(out@);
    let mut i: usize = 0;
    while i < entries.len()
        invariant
            i <= entries.len(),
            link_views(out@) == start + nested_links(entries@.subrange(0, i as int), config_root@),
        decreases entries.len() - i,
    {
        let g = &entries[i];
        let link = LinkMap { source: g.path.clone(), target: join(config_root, &g.name) };
        let ghost before = out@;
        out.push(link);
        assert(link_views(out@) =~= link_views(before).push(link@));
        assert(nested_links(entries@.subrange(0, i + 1), config_root@) =~= nested_links(
            entries@.subrange(0, i as int),
            config_root@,
        ).push(link@));
        i += 1;
    }
    assert(entries@.subrange(0, entries.len() as int) =~= entries@);
}

fn collect_child(c: &ChildEntry, home_root: &String, config_root: &String, out: &mut Vec<LinkMap>)
    ensures
        link_views(final(out)@) == link_views(old(out)@) + child_links(
            *c,
            home_root@,
            config_root@,
        ),
{
    if is_config_dir_name(&c.name) {
        collect_nested(&c.nested, config_root, out);
    } else {
        let link = LinkMap { source: c.path.clone(), target: join(home_root, &c.name) };
        let ghost before = out@;
        out.push(link);
        assert(link_views(out@) =~= link_views(before) + seq![link@]);
    }
}

fn collect_folder(
    children: &Vec<ChildEntry>,
    home_root: &String,
    config_root: &String,
    out: &mut Vec<LinkMap>,
)
    ensures
        link_views(final(out)@) == link_views(old(out)@) + folder_links(
            children@,
            home_root@,
            config_root@,
        ),
{
    let ghost start = link_views(out@);
    let mut i: usize = 0;
    while i < children.len()
        invariant
            i <= children.len(),
            link_views(out@) == start + folder_links(
                children@.subrange(0, i as int),
                home_root@,
                config_root@,
            ),
        decreases children.len() - i,
    {
        let ghost prefix = children@.subrange(0, i as int);
        let ghost next = children@.subrange(0, i + 1);
        assert(next.drop_last() =~= prefix);
        assert(next.last() == children@[i as int]);
        let ghost mid = link_views(out@);
        collect_child(&children[i], home_root, config_root, out);
        assert(link_views(out@) =~= start + folder_links(next, home_root@, config_root@)) by {
            assert(mid == start + folder_links(prefix, home_root@, config_root@));
            let ch = child_links(children@[i as int], home_root@, config_root@);
            assert(start + folder_links(prefix, home_root@, config_root@) + ch =~= start + (
            folder_links(prefix, home_root@, config_root@) + ch));
        }
        i += 1;
    }
    assert(children@.subrange(0, children.len() as int) =~= children@);
}

fn collect_all(
    folders: &Vec<FolderListing>,
    home_root: &String,
    config_root: &String,
    out: &mut Vec<LinkMap>,
)
    requires
        old(out)@.len() == 0,
    ensures
        link_views(final(out)@) == all_links(folders@, home_root@, config_root@),
{
    let mut i: usize = 0;
    assert(link_views(out@) =~= Seq::<Link>::empty());
    while i < folders.len()
        invariant
            i <= folders.len(),
            link_views(out@) == all_links(
                folders@.subrange(0, i as int),
                home_root@,
                config_root@,
            ),
        decreases folders.len() - i,
    {
        let ghost prefix = folders@.subrange(0, i as int);
        let ghost next = folders@.subrange(0, i + 1);
        assert(next.drop_last() =~= prefix);
        assert(next.last() == folders@[i as int]);
        collect_folder(&folders[i].children, home_root, config_root, out);
        i += 1;
    }
    assert(folders@.subrange(0, folders.len() as int) =~= folders@);
}

/// Whether two links of `v` share a target.
fn find_conflict(v: &Vec<LinkMap>) -> (r: bool)
    ensures
        r == has_conflict(link_views(v@)),
{
    let ghost s = link_views(v@);
    let n = v.len();
    let mut i: usize = 0;
    while i < n
        invariant
            n == v.len(),
            s == link_views(v@),
            i <= n,
            forall|a: int, b: int| 0 <= a < i && a < b < n ==> s[a].1 != s[b].1,
        decreases n - i,
    {
        let mut j: usize = i + 1;
        while j < n
            invariant
                n == v.len(),
                s == link_views(v@),
                i < n,
                i + 1 <= j <= n,
                forall|a: int, b: int| 0 <= a < i && a < b < n ==> s[a].1 != s[b].1,
                forall|b: int| i < b < j ==> s[i as int].1 != s[b].1,
            decreases n - j,
        {
            if v[i].target.eq(&v[j].target) {
                assert(s[i as int].1 == s[j as int].1);
                return true;
            }
            j += 1;
        }
        i += 1;
    }
    false
}

proof fn lemma_insert_contains(s: Seq<Link>, p: int, x: Link, y: Link)
    requires
        0 <= p <= s.len(),
    ensures
        s.insert(p, x).contains(y) <==> (s.contains(y) || y == x),
{
    let t = s.insert(p, x);
    if t.contains(y) {
        let k = choose|k: int| 0 <= k < t.len() && t[k] == y;
        if k < p {
            assert(s[k] == y);
        } else if k > p {
            assert(s[k - 1] == y);
        }
    }
    if s.contains(y) {
        let k = choose|k: int| 0 <= k < s.len() && s[k] == y;
        if k < p {
            assert(t[k] == y);
        } else {
            assert(t[k + 1] == y);
        }
    }
    assert(t[p] == x);
}

proof fn lemma_suffix_contains(s: Seq<Link>, r: int, y: Link)
    requires
        0 <= r < s.len(),
    ensures
        s.subrange(r, s.len() as int).contains(y) <==> (s[r] == y || s.subrange(
            r + 1,
            s.len() as int,
        ).contains(y)),
{
    let a = s.subrange(r, s.len() as int);
    let b = s.subrange(r + 1, s.len() as int);
    if a.contains(y) {
        let k = choose|k: int| 0 <= k < a.len() && a[k] == y;
        if k > 0 {
            assert(b[k - 1] == y);
        }
    }
    if b.contains(y) {
        let k = choose|k: int| 0 <= k < b.len() && b[k] == y;
        assert(a[k + 1] == y);
    }
    assert(a[0] == s[r]);
}

/// The links of `v`, ordered by target.
fn sort_by_target(v: Vec<LinkMap>) -> (r: Vec<LinkMap>)
    requires
        !has_conflict(link_views(v@)),
    ensures
        sorted_by_target(link_views(r@)),
        same_links(link_views(r@), link_views(v@)),
{
    let ghost orig = link_views(v@);
    let ghost n = orig.len();
    let mut rest = v;
    let mut out: Vec<LinkMap> = Vec::new();
    assert(orig.subrange(0, n as int) =~= orig);
    while rest.len() > 0
        invariant
            n == orig.len(),
            !has_conflict(orig),
            rest.len() <= n,
            link_views(rest@) == orig.subrange(0, rest.len() as int),
            out.len() + rest.len() == n,
            sorted_by_target(link_views(out@)),
            forall|y: Link|
                link_views(out@).contains(y) <==> orig.subrange(rest.len() as int, n as int).contains(
                    y,
                ),
        decreases rest.len(),
    {
        let ghost rest_before = rest@;
        let x = rest.pop().unwrap();
        let ghost r = rest.len() as int;
        assert(rest_before[r] == x);
        assert(link_views(rest_before)[r] == x@);
        assert(orig[r] == x@);
        assert(link_views(rest@) =~= orig.subrange(0, r)) by {
            assert(rest@ =~= rest_before.subrange(0, r));
        }
        let ghost ov = link_views(out@);
        let mut p: usize = 0;
        let mut found = false;
        while p < out.len() && !found
            invariant
                ov == link_views(out@),
                p <= out.len(),
                forall|k: int| 0 <= k < p ==> lex_lt(ov[k].1, x@.1),
                found ==> p < out.len() && !lex_lt(ov[p as int].1, x@.1),
            decreases out.len() - p + (if found {
                0int
            } else {
                1int
            }),
        {
            if path_lt(&out[p].target, &x.target) {
                p += 1;
            } else {
                found = true;
            }
        }
        let ghost xv = x@;
        out.insert(p, x);
        let ghost nv = link_views(out@);
        assert(nv =~= ov.insert(p as int, xv));
        proof {
            // the link that now follows `x` has a target greater than its own
            if (p as int) < ov.len() {
                let q = ov[p as int];
                assert(ov.contains(q));
                lemma_suffix_contains(orig, r, q);
                let tail = orig.subrange(r + 1, n as int);
                assert(tail.contains(q));
                let k = choose|k: int| 0 <= k < tail.len() && tail[k] == q;
                assert(orig[r + 1 + k] == q);
                assert(q.1 != xv.1);
                lemma_lex_total(q.1, xv.1);
            }
            assert forall|i: int, j: int| 0 <= i < j < nv.len() implies lex_lt(
                nv[i].1,
                nv[j].1,
            ) by {
                if j < p {
                } else if j == p {
                } else if i < p {
                    assert(lex_lt(ov[i].1, xv.1));
                    assert(lex_lt(xv.1, ov[p as int].1));
                    if j - 1 > p {
                        lemma_lex_transitive(xv.1, ov[p as int].1, ov[j - 1].1);
                    }
                    lemma_lex_transitive(ov[i].1, xv.1, ov[j - 1].1);
                } else if i == p {
                    if j - 1 > p {
                        lemma_lex_transitive(xv.1, ov[p as int].1, ov[j - 1].1);
                    }
                } else {
                }
            }
            assert forall|y: Link| nv.contains(y) <==> orig.subrange(r, n as int).contains(y) by {
                lemma_insert_contains(ov, p as int, xv, y);
                lemma_suffix_contains(orig, r, y);
            }
        }
    }
    assert(orig.subrange(0, n as int) =~= orig);
    out
}

/// Plans every link of the resolved folders: the children of each folder go
/// under `home_root`, those of a `.config` child under `config_root`.
/// Nothing on disk is read or changed; a conflict rejects the whole plan.
pub fn plan(folders: &Vec<FolderListing>, home_root: &String, config_root: &String) -> (r: Result<
    Vec<LinkMap>,
    DotfoxError,
>)
    ensures
        planned(folders@, home_root@, config_root@, result_views(r)),
{
    let mut links: Vec<LinkMap> = Vec::new();
    collect_all(folders, home_root, config_root, &mut links);
    if links.len() == 0 {
        return Err(DotfoxError::NoFiles);
    }
    if find_conflict(&links) {
        return Err(DotfoxError::Conflict);
    }
    Ok(sort_by_target(links))
}

proof fn lemma_sorted_drop_first(a: Seq<Link>, y: Link)
    requires
        sorted_by_target(a),
        a.len() > 0,
    ensures
        a.drop_first().contains(y) <==> (a.contains(y) && y != a[0]),
{
    let d = a.drop_first();
    if d.contains(y) {
        let k = choose|k: int| 0 <= k < d.len() && d[k] == y;
        assert(a[k + 1] == y);
        assert(lex_lt(a[0].1, a[k + 1].1));
        lemma_lex_irreflexive(a[0].1);
    }
    if a.contains(y) && y != a[0] {
        let k = choose|k: int| 0 <= k < a.len() && a[k] == y;
        assert(d[k - 1] == y);
    }
}

proof fn lemma_sorted_unique(a: Seq<Link>, b: Seq<Link>)
    requires
        sorted_by_target(a),
        sorted_by_target(b),
        same_links(a, b),
    ensures
        a == b,
    decreases a.len(),
{
    if a.len() > 0 {
        assert(a.contains(a[0]));
        let j = choose|j: int| 0 <= j < b.len() && b[j] == a[0];
        assert(b.contains(b[0]));
        let i = choose|i: int| 0 <= i < a.len() && a[i] == b[0];
        if j > 0 {
            assert(lex_lt(b[0].1, a[0].1));
            if i > 0 {
                assert(lex_lt(a[0].1, b[0].1));
                lemma_lex_asymmetric(a[0].1, b[0].1);
            } else {
                lemma_lex_irreflexive(a[0].1);
            }
        }
        assert(a[0] == b[0]);
        let da = a.drop_first();
        let db = b.drop_first();
        assert forall|y: Link| da.contains(y) <==> db.contains(y) by {
            lemma_sorted_drop_first(a, y);
            lemma_sorted_drop_first(b, y);
        }
        lemma_sorted_unique(da, db);
        assert forall|k: int| 0 <= k < a.len() implies a[k] == b[k] by {
            if k > 0 {
                assert(a[k] == da[k - 1]);
                assert(b[k] == db[k - 1]);
            }
        }
        assert(a =~= b);
    } else {
        if b.len() > 0 {
            assert(b.contains(b[0]));
        }
        assert(a =~= b);
    }
}

/// Planning depends on its arguments alone and changes nothing: two plans of
/// the same folders under the same roots are identical.
pub proof fn lemma_plan_deterministic(
    folders: Seq<FolderListing>,
    home_root: Seq<char>,
    config_root: Seq<char>,
    r1: Result<Seq<Link>, DotfoxError>,
    r2: Result<Seq<Link>, DotfoxError>,
)
    requires
        planned(folders, home_root, config_root, r1),
        planned(folders, home_root, config_root, r2),
    ensures
        r1 == r2,
{
    let c = all_links(folders, home_root, config_root);
    if c.len() > 0 && !has_conflict(c) {
        lemma_sorted_unique(r1->Ok_0, r2->Ok_0);
    }
}

/// Where two distinct candidates claim the same target, planning fails with
/// `Conflict` and yields no link to apply.
pub proof fn lemma_conflict_rejects_plan(
    folders: Seq<FolderListing>,
    home_root: Seq<char>,
    config_root: Seq<char>,
    r: Result<Seq<Link>, DotfoxError>,
    i: int,
    j: int,
)
    requires
        planned(folders, home_root, config_root, r),
        0 <= i < all_links(folders, home_root, config_root).len(),
        0 <= j < all_links(folders, home_root, config_root).len(),
        i != j,
        all_links(folders, home_root, config_root)[i].1 == all_links(
            folders,
            home_root,
            config_root,
        )[j].1,
    ensures
        r == Err::<Seq<Link>, DotfoxError>(DotfoxError::Conflict),
{
    let c = all_links(folders, home_root, config_root);
    if i < j {
        assert(has_conflict(c));
    } else {
        assert(c[j].1 == c[i].1);
        assert(has_conflict(c));
    }
}

} // verus!
