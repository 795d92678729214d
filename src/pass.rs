//! Paths of a password store, read from the tree that its listing prints.

use vstd::prelude::*;
use vstd::string::StrSliceExecFns;

verus! {

/// Whether a line of the tree opens an entry at this level: it starts with
/// `├── ` or `└── `.
pub open spec fn is_branch(line: Seq<char>) -> bool {
    line.len() >= 4 && line[1] == '\u{2500}' && line[2] == '\u{2500}' && line[3] == ' ' && (line[0]
        == '\u{251c}' || line[0] == '\u{2514}')
}

/// The first line at or after `i` that opens an entry, or the number of
/// lines.
pub open spec fn next_branch(lines: Seq<Seq<char>>, i: int) -> int
    decreases lines.len() - i,
{
    if i >= lines.len() {
        lines.len() as int
    } else if i >= 0 && is_branch(lines[i]) {
        i
    } else {
        next_branch(lines, i + 1)
    }
}

/// `child` inside the directory `parent`.
pub open spec fn join_path(parent: Seq<char>, child: Seq<char>) -> Seq<char> {
    if parent.len() == 0 {
        child
    } else {
        parent + seq!['/'] + child
    }
}

/// The paths of the entries of a tree from line `e` on. Each entry is a
/// line whose first four characters are its marker; the lines up to the
/// next entry form its subtree, one level deeper (four characters more).
/// An entry without a subtree is a path; an entry with one is the directory
/// of the subtree's paths. `None` where a line is too short to hold its
/// marker.
pub open spec fn tree_from(lines: Seq<Seq<char>>, e: int) -> Option<Seq<Seq<char>>>
    decreases lines.len() - e,
{
    if e < 0 || e >= lines.len() {
        Some(seq![])
    } else {
        let j = next_branch(lines, e + 1);
        if j <= e || j > lines.len() || lines[e].len() < 4 {
            None
        } else {
            let parent = lines[e].skip(4);
            let sub = lines.subrange(e + 1, j);
            let head = if j == e + 1 {
                Some(seq![parent])
            } else if exists|k: int| 0 <= k < sub.len() && (#[trigger] sub[k]).len() < 4 {
                None
            } else {
                match tree_from(unmarked(sub), 0) {
                    None => None,
                    Some(ps) => Some(ps.map_values(|p: Seq<char>| join_path(parent, p))),
                }
            };
            match head {
                None => None,
                Some(h) => match tree_from(lines, j) {
                    None => None,
                    Some(t) => Some(h + t),
                },
            }
        }
    }
}

/// The paths of a whole tree.
pub open spec fn tree_paths(lines: Seq<Seq<char>>) -> Option<Seq<Seq<char>>> {
    tree_from(lines, 0)
}

/// Lines without their first four characters.
pub open spec fn unmarked(lines: Seq<Seq<char>>) -> Seq<Seq<char>> {
    lines.map_values(|l: Seq<char>| l.skip(4))
}

/// The character sequences of some lines.
pub open spec fn views(v: Seq<Vec<char>>) -> Seq<Seq<char>> {
    v.map_values(|l: Vec<char>| l@)
}

/// Whether `q` occurs in `p`.
pub open spec fn contains(p: Seq<char>, q: Seq<char>) -> bool {
    exists|k: int| 0 <= k && k + q.len() <= p.len() && #[trigger] p.subrange(k, k + q.len()) == q
}

/// The characters of a string.
fn chars_of(s: &str) -> (r: Vec<char>)
    ensures
        r@ == s@,
{
    let n = s.unicode_len();
    let mut r: Vec<char> = Vec::new();
    let mut i: usize = 0;
    while i < n
        invariant
            n == s@.len(),
            i <= n,
            r@ == s@.subrange(0, i as int),
        decreases n - i,
    {
        r.push(s.get_char(i));
        assert(s@.subrange(0, i + 1) == s@.subrange(0, i as int).push(s@[i as int]));
        i = i + 1;
    }
    assert(s@.subrange(0, n as int) == s@);
    r
}

/// Relies on `String::from_iter` over `char`s: the string of the given
/// characters.
#[verifier::external_body]
fn string_of(chars: &[char]) -> (r: String)
    ensures
        r@ == chars@,
{
    chars.iter().collect()
}

/// Whether a line opens an entry.
fn is_branch_exec(line: &Vec<char>) -> (r: bool)
    ensures
        r == is_branch(line@),
{
    line.len() >= 4 && line[1] == '\u{2500}' && line[2] == '\u{2500}' && line[3] == ' ' && (line[0]
        == '\u{251c}' || line[0] == '\u{2514}')
}

/// The first line at or after `i` that opens an entry, or the number of
/// lines.
fn next_branch_exec(lines: &Vec<Vec<char>>, i: usize) -> (r: usize)
    requires
        i <= lines@.len(),
    ensures
        r == next_branch(views(lines@), i as int),
        i <= r <= lines@.len(),
{
    let ghost ls = views(lines@);
    let mut j: usize = i;
    while j < lines.len() && !is_branch_exec(&lines[j])
        invariant
            i <= j <= lines@.len(),
            ls == views(lines@),
            next_branch(ls, i as int) == next_branch(ls, j as int),
        decreases lines@.len() - j,
    {
        j = j + 1;
    }
    j
}

/// A line without its first four characters.
fn drop_marker(line: &Vec<char>) -> (r: Vec<char>)
    requires
        line@.len() >= 4,
    ensures
        r@ == line@.skip(4),
{
    let mut r: Vec<char> = Vec::new();
    let mut c: usize = 4;
    while c < line.len()
        invariant
            4 <= c <= line@.len(),
            r@ == line@.subrange(4, c as int),
        decreases line@.len() - c,
    {
        r.push(line[c]);
        assert(line@.subrange(4, c + 1) == line@.subrange(4, c as int).push(line@[c as int]));
        c = c + 1;
    }
    assert(line@.subrange(4, line@.len() as int) == line@.skip(4));
    r
}

/// Lines `from..to`, each without its first four characters; `None` where
/// one is shorter than that.
fn drop_markers(lines: &Vec<Vec<char>>, from: usize, to: usize) -> (r: Option<Vec<Vec<char>>>)
    requires
        from <= to <= lines@.len(),
    ensures
        ({
            let sub = views(lines@).subrange(from as int, to as int);
            if exists|k: int| 0 <= k < sub.len() && (#[trigger] sub[k]).len() < 4 {
                r is None
            } else {
                r matches Some(v) && views(v@) == unmarked(sub)
            }
        }),
{
    let ghost sub = views(lines@).subrange(from as int, to as int);
    let mut r: Vec<Vec<char>> = Vec::new();
    let mut i: usize = from;
    while i < to
        invariant
            from <= i <= to <= lines@.len(),
            sub == views(lines@).subrange(from as int, to as int),
            forall|k: int| 0 <= k < i - from ==> (#[trigger] sub[k]).len() >= 4,
            views(r@) == unmarked(sub.subrange(0, i - from)),
        decreases to - i,
    {
        if lines[i].len() < 4 {
            assert(sub[i - from].len() < 4);
            return None;
        }
        let rest = drop_marker(&lines[i]);
        assert(sub[i - from] == lines@[i as int]@);
        let ghost prev = r@;
        r.push(rest);
        assert(views(r@) =~= views(prev).push(rest@));
        assert(sub.subrange(0, i + 1 - from) =~= sub.subrange(0, i - from).push(sub[i - from]));
        assert(unmarked(sub.subrange(0, i + 1 - from)) =~= unmarked(sub.subrange(0, i - from)).push(
            sub[i - from].skip(4),
        ));
        i = i + 1;
    }
    assert(sub.subrange(0, to - from) == sub);
    Some(r)
}


/// Each path put inside the directory `parent`.
pub open spec fn joined(parent: Seq<char>, ps: Seq<Seq<char>>) -> Seq<Seq<char>> {
    ps.map_values(|p: Seq<char>| join_path(parent, p))
}

/// `child` inside the directory `parent`.
fn join_exec(parent: &Vec<char>, child: &Vec<char>) -> (r: Vec<char>)
    ensures
        r@ == join_path(parent@, child@),
{
    if parent.len() == 0 {
        return child.clone();
    }
    let mut r = parent.clone();
    r.push('/');
    let mut i: usize = 0;
    while i < child.len()
        invariant
            i <= child@.len(),
            r@ == parent@ + seq!['/'] + child@.subrange(0, i as int),
        decreases child@.len() - i,
    {
        r.push(child[i]);
        assert(child@.subrange(0, i + 1) == child@.subrange(0, i as int).push(child@[i as int]));
        i = i + 1;
    }
    assert(child@.subrange(0, child@.len() as int) == child@);
    r
}

/// Appends each path of `ps` put inside `parent`.
fn push_joined(acc: &mut Vec<Vec<char>>, parent: &Vec<char>, ps: &Vec<Vec<char>>)
    ensures
        views(final(acc)@) == views(old(acc)@) + joined(parent@, views(ps@)),
{
    let ghost start = views(acc@);
    let mut k: usize = 0;
    while k < ps.len()
        invariant
            k <= ps@.len(),
            views(acc@) == start + joined(parent@, views(ps@).subrange(0, k as int)),
        decreases ps@.len() - k,
    {
        let ghost prev = acc@;
        let p = join_exec(parent, &ps[k]);
        acc.push(p);
        assert(views(acc@) =~= views(prev).push(p@));
        assert(views(ps@).subrange(0, k + 1) =~= views(ps@).subrange(0, k as int).push(ps@[k as int]@));
        assert(joined(parent@, views(ps@).subrange(0, k + 1)) =~= joined(
            parent@,
            views(ps@).subrange(0, k as int),
        ).push(join_path(parent@, ps@[k as int]@)));
        k = k + 1;
    }
    assert(views(ps@).subrange(0, ps@.len() as int) =~= views(ps@));
}

/// The paths of a tree given as lines of characters.
fn paths_of(lines: &Vec<Vec<char>>) -> (r: Option<Vec<Vec<char>>>)
    ensures
        match tree_paths(views(lines@)) {
            None => r is None,
            Some(ps) => r matches Some(v) && views(v@) == ps,
        },
    decreases lines@.len(),
{
    let ghost ls = views(lines@);
    let mut acc: Vec<Vec<char>> = Vec::new();
    let mut e: usize = 0;
    while e < lines.len()
        invariant
            e <= lines@.len(),
            ls == views(lines@),
            tree_from(ls, 0) == match tree_from(ls, e as int) {
                Some(t) => Some(views(acc@) + t),
                None => None::<Seq<Seq<char>>>,
            },
        decreases lines@.len() - e,
    {
        let j = next_branch_exec(lines, e + 1);
        if lines[e].len() < 4 {
            return None;
        }
        let parent = drop_marker(&lines[e]);
        let ghost before = views(acc@);
        if j == e + 1 {
            acc.push(parent);
            assert(views(acc@) =~= before.push(parent@));
            proof {
                let t = tree_from(ls, j as int);
                if t is Some {
                    assert(views(acc@) + t.unwrap() =~= before + (seq![parent@] + t.unwrap()));
                }
            }
        } else {
            let sub = match drop_markers(lines, e + 1, j) {
                None => return None,
                Some(v) => v,
            };
            assert(views(sub@).len() == sub@.len());
            let ps = match paths_of(&sub) {
                None => return None,
                Some(v) => v,
            };
            push_joined(&mut acc, &parent, &ps);
            proof {
                let t = tree_from(ls, j as int);
                let h = joined(parent@, views(ps@));
                if t is Some {
                    assert(views(acc@) + t.unwrap() =~= before + (h + t.unwrap()));
                }
            }
        }
        e = j;
    }
    assert(views(acc@) + seq![] =~= views(acc@));
    Some(acc)
}


/// The character sequences of some strings.
pub open spec fn texts(v: Seq<String>) -> Seq<Seq<char>> {
    v.map_values(|s: String| s@)
}

/// The paths of the entries of a tree, as `tree` and `pass ls` print it
/// below their first line. A line too short to hold its marker is an
/// error.
pub fn tree_to_paths(lines: &Vec<String>) -> (r: Result<Vec<String>, String>)
    ensures
        match tree_paths(texts(lines@)) {
            None => r is Err,
            Some(ps) => r matches Ok(v) && texts(v@) == ps,
        },
{
    let mut cs: Vec<Vec<char>> = Vec::new();
    let mut i: usize = 0;
    while i < lines.len()
        invariant
            i <= lines@.len(),
            views(cs@) == texts(lines@).subrange(0, i as int),
        decreases lines@.len() - i,
    {
        let ghost prev = cs@;
        cs.push(chars_of(lines[i].as_str()));
        assert(views(cs@) =~= views(prev).push(lines@[i as int]@));
        assert(texts(lines@).subrange(0, i + 1) =~= texts(lines@).subrange(0, i as int).push(
            lines@[i as int]@,
        ));
        i = i + 1;
    }
    assert(texts(lines@).subrange(0, lines@.len() as int) =~= texts(lines@));
    let paths = match paths_of(&cs) {
        None => return Err(String::from_str("a line of the tree is too short")),
        Some(p) => p,
    };
    let mut r: Vec<String> = Vec::new();
    let mut k: usize = 0;
    while k < paths.len()
        invariant
            k <= paths@.len(),
            texts(r@) == views(paths@).subrange(0, k as int),
        decreases paths@.len() - k,
    {
        let ghost prev = r@;
        r.push(string_of(paths[k].as_slice()));
        assert(texts(r@) =~= texts(prev).push(paths@[k as int]@));
        assert(views(paths@).subrange(0, k + 1) =~= views(paths@).subrange(0, k as int).push(
            paths@[k as int]@,
        ));
        k = k + 1;
    }
    assert(views(paths@).subrange(0, paths@.len() as int) =~= views(paths@));
    Ok(r)
}

/// Whether `q` occurs in `p` at position `k`.
fn occurs_at(p: &Vec<char>, q: &Vec<char>, k: usize) -> (r: bool)
    requires
        k + q@.len() <= p@.len(),
    ensures
        r == (p@.subrange(k as int, k + q@.len()) == q@),
{
    let n = p.len();
    let mut i: usize = 0;
    while i < q.len()
        invariant
            n == p@.len(),
            k + q@.len() <= p@.len(),
            i <= q@.len(),
            p@.subrange(k as int, k + i) == q@.subrange(0, i as int),
        decreases q@.len() - i,
    {
        if p[k + i] != q[i] {
            assert(p@.subrange(k as int, k + q@.len())[i as int] != q@[i as int]);
            return false;
        }
        assert(p@.subrange(k as int, k + i + 1) =~= p@.subrange(k as int, k + i).push(p@[k + i]));
        assert(q@.subrange(0, i + 1) =~= q@.subrange(0, i as int).push(q@[i as int]));
        i = i + 1;
    }
    assert(q@.subrange(0, q@.len() as int) =~= q@);
    true
}

/// Whether `q` occurs in `p`.
fn contains_exec(p: &Vec<char>, q: &Vec<char>) -> (r: bool)
    ensures
        r == contains(p@, q@),
{
    if q.len() > p.len() {
        return false;
    }
    let last = p.len() - q.len();
    let mut k: usize = 0;
    while k <= last
        invariant
            q@.len() <= p@.len(),
            last == p@.len() - q@.len(),
            forall|j: int| 0 <= j < k ==> #[trigger] p@.subrange(j, j + q@.len()) != q@,
        decreases p@.len() - k,
    {
        if occurs_at(p, q, k) {
            return true;
        }
        if k == last {
            return false;
        }
        k = k + 1;
    }
    false
}

/// The paths of a password store that contain `query`. `listing` is what
/// `pass ls` prints: the store's name, then the tree of its entries.
pub fn find(listing: &Vec<String>, query: &String) -> (r: Result<Vec<String>, String>)
    ensures
        listing@.len() == 0 ==> r is Err,
        listing@.len() > 0 ==> match tree_paths(texts(listing@.skip(1))) {
            None => r is Err,
            Some(ps) => r matches Ok(v) && texts(v@) == ps.filter(|p: Seq<char>| contains(p, query@)),
        },
{
    if listing.len() == 0 {
        return Err(String::from_str("the listing is empty"));
    }
    let mut tree: Vec<String> = Vec::new();
    let mut i: usize = 1;
    while i < listing.len()
        invariant
            1 <= i <= listing@.len(),
            tree@ == listing@.subrange(1, i as int),
        decreases listing@.len() - i,
    {
        tree.push(listing[i].clone());
        assert(listing@.subrange(1, i + 1) =~= listing@.subrange(1, i as int).push(listing@[i as int]));
        i = i + 1;
    }
    assert(listing@.subrange(1, listing@.len() as int) =~= listing@.skip(1));
    let paths = match tree_to_paths(&tree) {
        Err(e) => return Err(e),
        Ok(p) => p,
    };
    let q = chars_of(query.as_str());
    let ghost pred = |p: Seq<char>| contains(p, query@);
    let mut r: Vec<String> = Vec::new();
    let mut k: usize = 0;
    while k < paths.len()
        invariant
            k <= paths@.len(),
            q@ == query@,
            pred == (|p: Seq<char>| contains(p, query@)),
            texts(r@) == texts(paths@).subrange(0, k as int).filter(pred),
        decreases paths@.len() - k,
    {
        let ghost prev = r@;
        let cs = chars_of(paths[k].as_str());
        proof {
            let before = texts(paths@).subrange(0, k as int);
            assert(texts(paths@).subrange(0, k + 1) =~= before.push(paths@[k as int]@));
            before.lemma_filter_push(paths@[k as int]@, pred);
        }
        if contains_exec(&cs, &q) {
            r.push(paths[k].clone());
            assert(texts(r@) =~= texts(prev).push(paths@[k as int]@));
        } else {
            assert(texts(r@) =~= texts(prev));
        }
        k = k + 1;
    }
    assert(texts(paths@).subrange(0, paths@.len() as int) =~= texts(paths@));
    Ok(r)
}

} // verus!
