//! Unix file paths as text: joining, comparing, and taking apart.
//!
//! Two paths are the same when their components are: repeated separators, a trailing separator
//! and `.` anywhere but at the start make no difference.
use vstd::prelude::*;
use vstd::string::*;

use crate::text::chars_of;

verus! {

/// Whether a path starts at the root.
pub open spec fn absolute(p: Seq<char>) -> bool {
    p.len() > 0 && p[0] == '/'
}

/// `p` taken relative to `base`; an absolute `p` stands for itself.
pub open spec fn joined_path(base: Seq<char>, p: Seq<char>) -> Seq<char> {
    if absolute(p) || base.len() == 0 {
        p
    } else if base.last() == '/' {
        base + p
    } else {
        base.push('/') + p
    }
}

/// How many characters stand before the first separator.
pub open spec fn name_len(p: Seq<char>) -> nat
    decreases p.len(),
{
    if p.len() == 0 || p[0] == '/' {
        0
    } else {
        1 + name_len(p.skip(1))
    }
}

proof fn name_len_bound(p: Seq<char>)
    ensures
        name_len(p) <= p.len(),
        forall|i: int| 0 <= i < name_len(p) ==> p[i] != '/',
        name_len(p) < p.len() ==> p[name_len(p) as int] == '/',
    decreases p.len(),
{
    if p.len() > 0 && p[0] != '/' {
        name_len_bound(p.skip(1));
        assert forall|i: int| 0 <= i < name_len(p) implies p[i] != '/' by {
            if i > 0 {
                assert(p.skip(1)[i - 1] == p[i]);
            }
        }
    }
}

/// Whether the text between two separators is a component; `start` says that it opens the path.
pub open spec fn is_component(name: Seq<char>, start: bool) -> bool {
    name.len() > 0 && (start || name != seq!['.'])
}

/// The components that follow, where `start` says whether `p` is a whole path.
pub open spec fn components_from(p: Seq<char>, start: bool) -> Seq<Seq<char>>
    decreases p.len(),
{
    if p.len() == 0 {
        Seq::empty()
    } else {
        let k = name_len(p) as int;
        let rest = if k < p.len() {
            p.skip(k + 1)
        } else {
            Seq::empty()
        };
        let tail = components_from(rest, false);
        if is_component(p.take(k), start) {
            seq![p.take(k)] + tail
        } else {
            tail
        }
    }
}

/// The components of a path.
pub open spec fn components(p: Seq<char>) -> Seq<Seq<char>> {
    components_from(p, true)
}

/// Whether two paths have the same root and components.
pub open spec fn same_path(a: Seq<char>, b: Seq<char>) -> bool {
    absolute(a) == absolute(b) && components(a) == components(b)
}

/// A path without trailing separators and trailing `.` components.
pub open spec fn without_trailer(p: Seq<char>) -> Seq<char>
    decreases p.len(),
{
    if p.len() >= 2 && (p.last() == '/' || (p.last() == '.' && p[p.len() - 2] == '/')) {
        without_trailer(p.drop_last())
    } else {
        p
    }
}

/// Where the last name of a path starts.
pub open spec fn last_name_start(p: Seq<char>) -> nat
    decreases p.len(),
{
    if p.len() == 0 || p.last() == '/' {
        p.len()
    } else {
        last_name_start(p.drop_last())
    }
}

/// The path without its last component; the root and the empty path have none.
pub open spec fn parent(p: Seq<char>) -> Option<Seq<char>> {
    let t = without_trailer(p);
    if t.len() == 0 || t == seq!['/'] {
        None
    } else {
        Some(without_trailer(t.take(last_name_start(t) as int)))
    }
}

/// The last component of a path, where that is a name.
pub open spec fn file_name(p: Seq<char>) -> Option<Seq<char>> {
    let t = without_trailer(p);
    let name = t.skip(last_name_start(t) as int);
    if name.len() == 0 || name == seq!['.'] || name == seq!['.', '.'] {
        None
    } else {
        Some(name)
    }
}

/// Whether a path starts at the root.
pub fn is_absolute(p: &str) -> (b: bool)
    ensures
        b == absolute(p@),
{
    p.unicode_len() > 0 && p.get_char(0) == '/'
}

/// Takes `p` relative to `base`.
pub fn join_path(base: &str, p: &str) -> (r: String)
    ensures
        r@ == joined_path(base@, p@),
{
    if is_absolute(p) || base.unicode_len() == 0 {
        return p.to_string();
    }
    let mut r = base.to_string();
    if base.get_char(base.unicode_len() - 1) != '/' {
        proof {
            reveal_strlit("/");
        }
        r.append("/");
        assert(r@ =~= base@.push('/'));
    }
    r.append(p);
    r
}

/// The components of a path.
fn path_components(p: &str) -> (r: Vec<String>)
    ensures
        r.deep_view() == components(p@),
{
    let v = chars_of(p);
    let mut out: Vec<String> = Vec::new();
    let mut i: usize = 0;
    assert(p@.skip(0) =~= p@);
    assert(out.deep_view() =~= Seq::<Seq<char>>::empty());
    assert(components(p@) =~= out.deep_view() + components_from(p@.skip(0), true));
    while i < v.len()
        invariant
            v@ == p@,
            i <= v.len(),
            components(p@) == out.deep_view() + components_from(p@.skip(i as int), i == 0),
        decreases v.len() - i,
    {
        let ghost rest = p@.skip(i as int);
        let mut j: usize = i;
        assert(p@.skip(j as int) == rest);
        while j < v.len() && v[j] != '/'
            invariant
                v@ == p@,
                i <= j <= v.len(),
                name_len(rest) == (j - i) + name_len(p@.skip(j as int)),
            decreases v.len() - j,
        {
            assert(p@.skip(j as int).skip(1) =~= p@.skip(j + 1));
            j = j + 1;
        }
        assert(name_len(rest) == j - i);
        let name = p.substring_char(i, j);
        assert(name@ =~= rest.take(j - i));
        let dot = j - i == 1 && v[i] == '.';
        assert(dot == (name@ == seq!['.'])) by {
            if dot {
                assert(name@ =~= seq!['.']);
            }
        }
        let ghost before = out.deep_view();
        let keep = j > i && (i == 0 || !dot);
        if keep {
            out.push(name.to_string());
            assert(out.deep_view() =~= before.push(name@));
        }
        proof {
            let next = if j < v.len() {
                rest.skip(j - i + 1)
            } else {
                Seq::empty()
            };
            if j < v.len() {
                assert(next =~= p@.skip(j + 1));
            } else {
                assert(next =~= p@.skip(j as int));
            }
            assert(components(p@) =~= out.deep_view() + components_from(next, false));
        }
        i = if j < v.len() {
            j + 1
        } else {
            j
        };
    }
    assert(components(p@) =~= out.deep_view());
    out
}

/// Compares two paths component by component.
pub fn is_same_path(a: &str, b: &str) -> (r: bool)
    ensures
        r == same_path(a@, b@),
{
    if is_absolute(a) != is_absolute(b) {
        return false;
    }
    let x = path_components(a);
    let y = path_components(b);
    if x.len() != y.len() {
        assert(x.deep_view().len() != y.deep_view().len());
        return false;
    }
    let mut i: usize = 0;
    while i < x.len()
        invariant
            x.deep_view() == components(a@),
            y.deep_view() == components(b@),
            x.len() == y.len(),
            i <= x.len(),
            forall|k: int| 0 <= k < i ==> x.deep_view()[k] == y.deep_view()[k],
        decreases x.len() - i,
    {
        if !(x[i] == y[i]) {
            assert(x.deep_view()[i as int] != y.deep_view()[i as int]);
            return false;
        }
        i = i + 1;
    }
    assert(x.deep_view() =~= y.deep_view());
    true
}

fn trailer_start(v: &Vec<char>, end: usize) -> (n: usize)
    requires
        end <= v.len(),
    ensures
        n <= end,
        v@.take(n as int) == without_trailer(v@.take(end as int)),
    decreases end,
{
    if end >= 2 && (v[end - 1] == '/' || (v[end - 1] == '.' && v[end - 2] == '/')) {
        assert(v@.take(end as int).drop_last() =~= v@.take(end - 1));
        trailer_start(v, end - 1)
    } else {
        end
    }
}

fn find_last_name(v: &Vec<char>, end: usize) -> (n: usize)
    requires
        end <= v.len(),
    ensures
        n <= end,
        n == last_name_start(v@.take(end as int)),
    decreases end,
{
    if end == 0 || v[end - 1] == '/' {
        end
    } else {
        assert(v@.take(end as int).drop_last() =~= v@.take(end - 1));
        find_last_name(v, end - 1)
    }
}

/// The path without its last component.
pub fn parent_path(p: &str) -> (r: Option<String>)
    ensures
        r.deep_view() == parent(p@),
{
    let v = chars_of(p);
    assert(v@.take(v@.len() as int) =~= p@);
    let end = trailer_start(&v, v.len());
    let ghost t = without_trailer(p@);
    if end == 0 || (end == 1 && v[0] == '/') {
        assert(end == 1 ==> t =~= seq!['/']);
        return None;
    }
    assert(t != seq!['/']) by {
        if t == seq!['/'] {
            assert(t[0] == '/' && t.len() == 1);
        }
    }
    let start = find_last_name(&v, end);
    let cut = trailer_start(&v, start);
    assert(t.take(start as int) =~= v@.take(start as int));
    assert(p@.subrange(0, cut as int) =~= v@.take(cut as int));
    Some(p.substring_char(0, cut).to_string())
}

/// The last component of a path, where that is a name.
pub fn path_file_name(p: &str) -> (r: Option<String>)
    ensures
        r.deep_view() == file_name(p@),
{
    let v = chars_of(p);
    assert(v@.take(v@.len() as int) =~= p@);
    let end = trailer_start(&v, v.len());
    let start = find_last_name(&v, end);
    let ghost name = without_trailer(p@).skip(start as int);
    assert(p@.subrange(start as int, end as int) =~= name);
    if start == end {
        return None;
    }
    if end - start == 1 && v[start] == '.' {
        assert(name =~= seq!['.']);
        return None;
    }
    if end - start == 2 && v[start] == '.' && v[start + 1] == '.' {
        assert(name =~= seq!['.', '.']);
        return None;
    }
    assert(name[0] == v@[start as int]);
    assert(name.len() == 2 ==> name[1] == v@[start + 1]);
    assert(name != seq!['.']) by {
        if name == seq!['.'] {
            assert(name.len() == 1 && name[0] == '.');
        }
    }
    assert(name != seq!['.', '.']) by {
        if name == seq!['.', '.'] {
            assert(name.len() == 2 && name[0] == '.' && name[1] == '.');
        }
    }
    Some(p.substring_char(start, end).to_string())
}

proof fn name_len_is(p: Seq<char>, k: nat)
    requires
        k <= p.len(),
        forall|i: int| 0 <= i < k ==> p[i] != '/',
        k == p.len() || p[k as int] == '/',
    ensures
        name_len(p) == k,
    decreases k,
{
    if k > 0 {
        assert forall|i: int| 0 <= i < k - 1 implies p.skip(1)[i] != '/' by {
            assert(p.skip(1)[i] == p[i + 1]);
        }
        name_len_is(p.skip(1), (k - 1) as nat);
    }
}

proof fn components_of_both(p: Seq<char>, start: bool, name: Seq<char>)
    requires
        forall|i: int| 0 <= i < name.len() ==> name[i] != '/',
    ensures
        components_from(p.push('/') + name, start) == components_from(p, start) + components_from(
            name,
            false,
        ),
    decreases p.len(),
{
    let q = p.push('/') + name;
    let k = name_len(p);
    name_len_bound(p);
    assert forall|i: int| 0 <= i < k implies q[i] != '/' by {
        assert(q[i] == p[i]);
    }
    name_len_is(q, k);
    assert(q.take(k as int) =~= p.take(k as int));
    if k < p.len() {
        let rest = p.skip(k + 1int);
        assert(q.skip(k + 1int) =~= rest.push('/') + name);
        components_of_both(rest, false, name);
        assert(components_from(q, start) =~= components_from(p, start) + components_from(
            name,
            false,
        ));
    } else {
        assert(q.skip(k + 1int) =~= name);
        assert(components_from(Seq::<char>::empty(), false) =~= Seq::<Seq<char>>::empty());
        assert(components_from(q, start) =~= components_from(p, start) + components_from(
            name,
            false,
        ));
    }
}

/// A path grows by one component with every separator and name that is put behind it; an empty
/// name and `.` add none. A name alone is its own only component, and the empty path has none.
pub proof fn components_follow_separators(p: Seq<char>, name: Seq<char>)
    requires
        forall|i: int| 0 <= i < name.len() ==> name[i] != '/',
    ensures
        components(Seq::empty()) == Seq::<Seq<char>>::empty(),
        name.len() > 0 ==> components(name) == seq![name],
        name.len() == 0 || name == seq!['.'] ==> components(p + seq!['/'] + name) == components(p),
        name.len() > 0 && name != seq!['.'] ==> components(p + seq!['/'] + name) == components(
            p,
        ).push(name),
{
    name_len_is(name, name.len());
    assert(name.take(name.len() as int) =~= name);
    assert(components_from(Seq::<char>::empty(), false) =~= Seq::<Seq<char>>::empty());
    components_of_both(p, true, name);
    assert(p + seq!['/'] + name =~= p.push('/') + name);
    if name.len() > 0 {
        assert(components(name) =~= seq![name]);
        if name != seq!['.'] {
            assert(components_from(name, false) =~= seq![name]);
            assert(components(p + seq!['/'] + name) =~= components(p).push(name));
        } else {
            assert(components_from(name, false) =~= Seq::<Seq<char>>::empty());
            assert(components(p + seq!['/'] + name) =~= components(p));
        }
    } else {
        assert(components(p + seq!['/'] + name) =~= components(p));
    }
}

/// A path that starts at the root stands for itself wherever it is looked for; any other path
/// follows the directory and a separator, which is not doubled.
pub proof fn joining_keeps_both_paths(base: Seq<char>, p: Seq<char>)
    ensures
        p.len() > 0 && p[0] == '/' ==> joined_path(base, p) == p,
        base.len() == 0 ==> joined_path(base, p) == p,
        base.len() > 0 && !(p.len() > 0 && p[0] == '/') && base[base.len() - 1] != '/'
            ==> joined_path(base, p) == base + seq!['/'] + p,
        base.len() > 0 && !(p.len() > 0 && p[0] == '/') && base[base.len() - 1] == '/'
            ==> joined_path(base, p) == base + p,
{
    assert(base.push('/') + p =~= base + seq!['/'] + p);
}

proof fn last_name_start_is(p: Seq<char>, name: Seq<char>)
    requires
        forall|i: int| 0 <= i < name.len() ==> name[i] != '/',
    ensures
        last_name_start(p.push('/') + name) == p.len() + 1,
    decreases name.len(),
{
    let q = p.push('/') + name;
    if name.len() > 0 {
        assert(q.drop_last() =~= p.push('/') + name.drop_last());
        assert(q.last() == name.last());
        last_name_start_is(p, name.drop_last());
    } else {
        assert(q.last() == '/');
    }
}

/// The name behind the last separator of a path is its file name, and what stands before that
/// separator its parent.
pub proof fn file_name_follows_parent(dir: Seq<char>, name: Seq<char>)
    requires
        dir.len() > 0,
        dir[dir.len() - 1] != '/',
        dir[dir.len() - 1] != '.',
        name.len() > 0,
        name != seq!['.'],
        forall|i: int| 0 <= i < name.len() ==> name[i] != '/',
    ensures
        parent(dir + seq!['/'] + name) == Some(dir),
        name != seq!['.', '.'] ==> file_name(dir + seq!['/'] + name) == Some(name),
        file_name(dir + seq!['/'] + seq!['.', '.']) is None,
{
    let q = dir.push('/') + name;
    assert(dir + seq!['/'] + name =~= q);
    assert(name.len() == 1 ==> name =~= seq![name[0]]);
    assert(q.last() == name.last());
    assert(name.len() > 1 ==> q[q.len() - 2] == name[name.len() - 2]);
    assert(without_trailer(q) == q);
    last_name_start_is(dir, name);
    assert(q.skip(dir.len() + 1int) =~= name);
    assert(q.take(dir.len() + 1int) =~= dir.push('/'));
    assert(dir.push('/').drop_last() =~= dir);
    assert(without_trailer(dir.push('/')) == without_trailer(dir));
    assert(without_trailer(dir) == dir);
    let up = seq!['.', '.'];
    let r = dir.push('/') + up;
    assert(dir + seq!['/'] + up =~= r);
    assert(r.last() == up[1] && r[r.len() - 2] == up[0]);
    last_name_start_is(dir, up);
    assert(r.skip(dir.len() + 1int) =~= up);
}

/// Separators and `.` at the end of a path are not a part of its last name, and do not change its
/// parent. The root and the empty path have neither.
pub proof fn trailers_do_not_count(p: Seq<char>)
    requires
        p.len() > 0,
    ensures
        file_name(p + seq!['/']) == file_name(p),
        file_name(p + seq!['/', '.']) == file_name(p),
        parent(p + seq!['/']) == parent(p),
        parent(p + seq!['/', '.']) == parent(p),
        parent(seq!['/']) is None,
        parent(Seq::empty()) is None,
        file_name(seq!['/']) is None,
        file_name(Seq::empty()) is None,
{
    let a = p + seq!['/'];
    let b = p + seq!['/', '.'];
    assert(a.drop_last() =~= p);
    assert(b.drop_last() =~= a);
    assert(a.last() == '/' && a.len() >= 2);
    assert(b.last() == '.' && b[b.len() - 2] == '/');
    assert(without_trailer(b) == without_trailer(a));
    assert(without_trailer(a) == without_trailer(p));
    let root = seq!['/'];
    assert(without_trailer(root) == root);
    assert(root.last() == '/');
    assert(root.skip(1).len() == 0);
    let none = Seq::<char>::empty();
    assert(without_trailer(none) == none);
    assert(none.skip(0).len() == 0);
}

} // verus!
