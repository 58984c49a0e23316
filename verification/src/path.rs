//! Slash-separated paths as text.

use vstd::prelude::*;
use vstd::string::*;

use crate::text::{chars_of, concat2, concat3};

verus! {

broadcast use vstd::string::group_string_axioms;

/// Whether `p` starts at the root.
pub open spec fn is_absolute(p: Seq<char>) -> bool {
    p.len() > 0 && p[0] == '/'
}

/// `rel` taken below `base`: an absolute `rel` stands for itself, otherwise one separator keeps
/// the two apart.
pub open spec fn path_join(base: Seq<char>, rel: Seq<char>) -> Seq<char> {
    if is_absolute(rel) || base.len() == 0 {
        rel
    } else if base.last() == '/' {
        base + rel
    } else {
        base + seq!['/'] + rel
    }
}

/// The length of what stands before the first component: the root, or a leading `.`.
pub open spec fn body_start(p: Seq<char>) -> int {
    if is_absolute(p) {
        1
    } else if p.len() > 0 && p[0] == '.' && (p.len() == 1 || p[1] == '/') {
        1
    } else {
        0
    }
}

/// Where the last piece of `p` begins, the first `start` characters left aside.
pub open spec fn piece_start(p: Seq<char>, start: int) -> int
    decreases p.len(),
{
    if p.len() <= start || p.len() == 0 {
        start
    } else if p.last() == '/' {
        p.len() as int
    } else {
        piece_start(p.drop_last(), start)
    }
}

/// `p` without its last piece and the separator in front of it.
pub open spec fn without_piece(p: Seq<char>, start: int) -> Seq<char> {
    let at = piece_start(p, start);
    if at > start {
        p.take(at - 1)
    } else {
        p.take(start)
    }
}

/// Whether the last piece of `p` names nothing: it is empty or `.`.
pub open spec fn idle_piece(p: Seq<char>, start: int) -> bool {
    let piece = p.skip(piece_start(p, start));
    piece.len() == 0 || piece == seq!['.']
}

/// `p` without the idle pieces at its end.
pub open spec fn settled(p: Seq<char>, start: int) -> Seq<char>
    decreases p.len(),
{
    if p.len() > start >= 0 && idle_piece(p, start) && without_piece(p, start).len() < p.len() {
        settled(without_piece(p, start), start)
    } else {
        p
    }
}

/// The path without its last component; the root and the empty path have no parent.
pub open spec fn parent(p: Seq<char>) -> Option<Seq<char>> {
    let start = body_start(p);
    let q = settled(p, start);
    if q.len() > start {
        Some(settled(without_piece(q, start), start))
    } else if start == 1 && p[0] == '.' {
        Some(Seq::empty())
    } else {
        None
    }
}

/// The last piece begins inside the path.
proof fn lemma_piece_start(p: Seq<char>, start: int)
    requires
        0 <= start <= p.len(),
    ensures
        start <= piece_start(p, start) <= p.len(),
        without_piece(p, start) == p.take(without_piece(p, start).len() as int),
        start <= without_piece(p, start).len() <= p.len(),
        p.len() > start ==> without_piece(p, start).len() < p.len(),
    decreases p.len(),
{
    if p.len() > start && p.last() != '/' {
        lemma_piece_start(p.drop_last(), start);
    }
}

/// Joins two paths.
pub fn join_path(base: &str, rel: &str) -> (r: String)
    ensures
        r@ == path_join(base@, rel@),
{
    let n: usize = base.unicode_len();
    let m: usize = rel.unicode_len();
    if (m > 0 && rel.get_char(0) == '/') || n == 0 {
        rel.to_owned()
    } else if base.get_char(n - 1) == '/' {
        concat2(base, rel)
    } else {
        proof {
            reveal_strlit("/");
            assert("/"@ =~= seq!['/']);
        }
        concat3(base, "/", rel)
    }
}

/// Where the last piece of the first `len` characters of `cs` begins.
fn find_piece_start(cs: &Vec<char>, len: usize, start: usize) -> (at: usize)
    requires
        start <= len <= cs@.len(),
    ensures
        at == piece_start(cs@.take(len as int), start as int),
        start <= at <= len,
{
    let mut i: usize = len;
    proof {
        lemma_piece_start(cs@.take(len as int), start as int);
    }
    while i > start
        invariant
            start <= i <= len <= cs@.len(),
            piece_start(cs@.take(i as int), start as int) == piece_start(
                cs@.take(len as int),
                start as int,
            ),
        decreases i,
    {
        if cs[i - 1] == '/' {
            return i;
        }
        proof {
            assert(cs@.take(i as int).drop_last() =~= cs@.take(i - 1));
        }
        i = i - 1;
    }
    start
}

/// The length of the first `len` characters of `cs` without their last piece.
fn cut_piece(cs: &Vec<char>, len: usize, start: usize) -> (r: usize)
    requires
        start < len <= cs@.len(),
    ensures
        cs@.take(r as int) == without_piece(cs@.take(len as int), start as int),
        start <= r < len,
{
    let at: usize = find_piece_start(cs, len, start);
    proof {
        lemma_piece_start(cs@.take(len as int), start as int);
    }
    if at > start {
        proof {
            assert(cs@.take(len as int).take(at - 1) =~= cs@.take(at - 1));
        }
        at - 1
    } else {
        proof {
            assert(cs@.take(len as int).take(start as int) =~= cs@.take(start as int));
        }
        start
    }
}

/// The length of the first `len` characters of `cs` without idle pieces at their end.
fn settle(cs: &Vec<char>, len: usize, start: usize) -> (r: usize)
    requires
        start <= len <= cs@.len(),
    ensures
        cs@.take(r as int) == settled(cs@.take(len as int), start as int),
        start <= r <= len,
{
    let mut n: usize = len;
    while n > start
        invariant
            start <= n <= len <= cs@.len(),
            settled(cs@.take(n as int), start as int) == settled(
                cs@.take(len as int),
                start as int,
            ),
        decreases n,
    {
        let at: usize = find_piece_start(cs, n, start);
        let idle = at == n || (at + 1 == n && cs[at] == '.');
        proof {
            let piece = cs@.take(n as int).skip(at as int);
            assert(piece == seq!['.'] <==> (at + 1 == n && cs@[at as int] == '.')) by {
                if at + 1 == n && cs@[at as int] == '.' {
                    assert(piece =~= seq!['.']);
                }
                if piece == seq!['.'] {
                    assert(piece.len() == 1 && piece[0] == '.');
                }
            }
            assert(idle == idle_piece(cs@.take(n as int), start as int));
        }
        if !idle {
            return n;
        }
        n = cut_piece(cs, n, start);
    }
    n
}

/// The parent of a path, if it has one.
pub fn get_parent_dir(path: &str) -> (r: Option<&str>)
    ensures
        r is Some <==> parent(path@) is Some,
        r matches Some(t) ==> parent(path@) == Some(t@),
{
    let cs = chars_of(path);
    let n: usize = cs.len();
    proof {
        assert(cs@.take(n as int) =~= path@);
    }
    let mut start: usize = 0;
    if n > 0 && (cs[0] == '/' || (cs[0] == '.' && (n == 1 || cs[1] == '/'))) {
        start = 1;
    }
    let q: usize = settle(&cs, n, start);
    if q > start {
        let c: usize = cut_piece(&cs, q, start);
        let r: usize = settle(&cs, c, start);
        proof {
            assert(path@.subrange(0, r as int) =~= cs@.take(r as int));
        }
        Some(path.substring_char(0, r))
    } else if start == 1 && cs[0] == '.' {
        proof {
            assert(path@.subrange(0, 0) =~= Seq::<char>::empty());
        }
        Some(path.substring_char(0, 0))
    } else {
        None
    }
}

/// An absolute path below a directory is that path itself.
pub proof fn law_join_absolute(base: Seq<char>, rel: Seq<char>)
    requires
        is_absolute(rel),
    ensures
        path_join(base, rel) == rel,
{
}

/// The parent of a plain file name below a directory that ends in a component is the directory.
pub proof fn law_parent_of_join(dir: Seq<char>, name: Seq<char>)
    requires
        dir.len() > 0,
        settled(dir, body_start(dir)) == dir,
        body_start(dir) < dir.len(),
        !name.contains('/'),
        name.len() > 0,
        name != seq!['.'],
    ensures
        parent(path_join(dir, name)) == Some(dir),
{
    let start = body_start(dir);
    let p = path_join(dir, name);
    assert(name[0] != '/') by {
        assert(name.contains(name[0]));
    }
    assert(dir.last() != '/') by {
        if dir.last() == '/' {
            assert(piece_start(dir, start) == dir.len());
            assert(dir.skip(dir.len() as int) =~= Seq::<char>::empty());
            lemma_piece_start(dir, start);
            assert(settled(dir, start) == settled(without_piece(dir, start), start));
            lemma_settled_len(without_piece(dir, start), start);
        }
    }
    assert(p == dir + seq!['/'] + name);
    assert(p[0] == dir[0]);
    if dir.len() > 1 {
        assert(p[1] == dir[1]);
    }
    assert(body_start(p) == start);
    lemma_piece_of_join(dir, name, start, name.len() as int);
    assert(p.take((dir.len() + 1 + name.len()) as int) =~= p);
    assert(p.skip(piece_start(p, start)) =~= name);
    assert(settled(p, start) == p);
    assert(p.take(dir.len() as int) =~= dir);
}

/// Settling never lengthens a path.
proof fn lemma_settled_len(p: Seq<char>, start: int)
    ensures
        settled(p, start).len() <= p.len(),
    decreases p.len(),
{
    if p.len() > start >= 0 && idle_piece(p, start) && without_piece(p, start).len() < p.len() {
        lemma_settled_len(without_piece(p, start), start);
    }
}

/// Behind a directory and a separator the last piece is the part of the name written so far.
proof fn lemma_piece_of_join(dir: Seq<char>, name: Seq<char>, start: int, n: int)
    requires
        0 <= start <= dir.len(),
        0 <= n <= name.len(),
        !name.contains('/'),
    ensures
        piece_start((dir + seq!['/'] + name).take(dir.len() + 1 + n), start) == dir.len() + 1,
    decreases n,
{
    let p = dir + seq!['/'] + name;
    let q = p.take(dir.len() + 1 + n);
    if n > 0 {
        lemma_piece_of_join(dir, name, start, n - 1);
        assert(q.last() == name[n - 1]);
        assert(name.contains(name[n - 1]));
        assert(q.drop_last() =~= p.take(dir.len() + 1 + n - 1));
    } else {
        assert(q.last() == '/');
    }
}

/// An absolute path replaces what it is joined to. Any other comes behind it, with exactly one slash
/// between the two, and with none where there is nothing to join to.
pub proof fn law_join_puts_behind(base: &str, rel: &str, r: String)
    requires
        call_ensures(join_path, (base, rel), r),
    ensures
        rel@.len() > 0 && rel@[0] == '/' ==> r@ == rel@,
        base@.len() == 0 ==> r@ == rel@,
        base@.len() > 0 && (rel@.len() == 0 || rel@[0] != '/') ==> {
            &&& base@.last() == '/' ==> r@ == base@ + rel@
            &&& base@.last() != '/' ==> r@ == base@ + "/"@ + rel@
        },
{
    reveal_strlit("/");
    assert("/"@ =~= seq!['/']);
}

/// The parent of a path is a shorter part of its beginning. A slash behind the path makes no
/// difference, and the path without anything has no parent.
pub proof fn law_parent_is_shorter(path: &str, r: Option<&str>)
    requires
        call_ensures(get_parent_dir, (path,), r),
    ensures
        r matches Some(dir) ==> dir@.len() < path@.len() && dir@ == path@.take(dir@.len() as int),
        path@.len() == 0 ==> r is None,
        r is None <==> parent(path@) is None,
        r matches Some(dir) ==> parent(path@) == Some(dir@),
        path@.len() > 0 ==> parent(path@.push('/')) == parent(path@),
{
    let p = path@;
    let start = body_start(p);
    lemma_settled_prefix(p, start);
    let q = settled(p, start);
    if q.len() > start {
        lemma_piece_start(q, start);
        let c = without_piece(q, start);
        lemma_settled_prefix(c, start);
        let d = settled(c, start);
        assert(c =~= p.take(c.len() as int));
        assert(d =~= p.take(d.len() as int));
    }
    if p.len() > 0 {
        let longer = p.push('/');
        assert(longer[0] == p[0]);
        assert(p.len() > 1 ==> longer[1] == p[1]);
        assert(body_start(longer) == start);
        assert(longer.last() == '/');
        assert(piece_start(longer, start) == longer.len());
        assert(longer.skip(longer.len() as int) =~= Seq::<char>::empty());
        assert(longer.take(p.len() as int) =~= p);
        assert(without_piece(longer, start) == p);
        assert(settled(longer, start) == settled(p, start));
    }
}

/// A name alone lies in the current directory, and a name behind one slash in the root, which has
/// no parent.
pub proof fn law_parent_of_name(name: Seq<char>)
    requires
        name.len() > 0,
        !name.contains('/'),
        name != seq!['.'],
    ensures
        parent(name) == Some(Seq::<char>::empty()),
        parent(seq!['/'] + name) == Some(seq!['/']),
        parent(seq!['/']) is None,
{
    assert(name.contains(name[0]));
    if name.len() == 1 && name[0] == '.' {
        assert(name =~= seq!['.']);
    }
    if name.len() > 1 {
        assert(name.contains(name[1]));
    }
    assert(body_start(name) == 0);
    assert(name.skip(0) =~= name);
    lemma_piece_of_name(name, name, 0);
    assert(settled(name, 0) == name);
    assert(without_piece(name, 0) =~= Seq::<char>::empty());
    let p = seq!['/'] + name;
    assert(p[0] == '/');
    assert(p.skip(1) =~= name);
    lemma_piece_of_name(p, name, 1);
    assert(settled(p, 1) == p);
    assert(without_piece(p, 1) =~= seq!['/']);
}

/// A piece without a slash is found as a whole.
proof fn lemma_piece_of_name(p: Seq<char>, name: Seq<char>, start: int)
    requires
        0 <= start <= p.len(),
        p.skip(start) == name,
        !name.contains('/'),
    ensures
        piece_start(p, start) == start,
    decreases p.len(),
{
    if p.len() > start {
        assert(p.last() == name[p.len() - 1 - start]);
        assert(name.contains(name[p.len() - 1 - start]));
        let shorter = name.drop_last();
        assert(p.drop_last().skip(start) =~= shorter);
        assert(!shorter.contains('/')) by {
            if shorter.contains('/') {
                let i = choose|i: int| 0 <= i < shorter.len() && shorter[i] == '/';
                assert(name[i] == '/');
            }
        }
        lemma_piece_of_name(p.drop_last(), shorter, start);
    }
}

/// Settling a path takes something off its end, and nothing in front of its body.
proof fn lemma_settled_prefix(p: Seq<char>, start: int)
    requires
        0 <= start <= p.len(),
    ensures
        start <= settled(p, start).len() <= p.len(),
        settled(p, start) == p.take(settled(p, start).len() as int),
    decreases p.len(),
{
    if p.len() > start {
        lemma_piece_start(p, start);
    }
    if p.len() > start && idle_piece(p, start) && without_piece(p, start).len() < p.len() {
        let q = without_piece(p, start);
        lemma_settled_prefix(q, start);
        let r = settled(q, start);
        assert(r =~= p.take(r.len() as int));
    } else {
        assert(p =~= p.take(p.len() as int));
    }
}

/// Empty pieces and pieces that stand for the directory they are in make no difference: neither
/// behind a path nor between a path and a name.
pub proof fn law_parent_skips_idle_pieces(p: Seq<char>, name: Seq<char>)
    requires
        p.len() > 0,
        name.len() > 0,
        !name.contains('/'),
        name != seq!['.'],
    ensures
        parent(p + seq!['/', '.']) == parent(p),
        parent(p + seq!['/', '/'] + name) == parent(p + seq!['/'] + name),
        parent(p + seq!['/', '.', '/'] + name) == parent(p + seq!['/'] + name),
{
    let start = body_start(p);
    let slash = p + seq!['/'];
    let dot = p + seq!['/', '.'];
    lemma_idle_end(p);
    lemma_parent_of_any(p, name);
    lemma_parent_of_any(slash, name);
    lemma_parent_of_any(dot, name);
    assert(slash + seq!['/'] + name =~= p + seq!['/', '/'] + name);
    assert(dot + seq!['/'] + name =~= p + seq!['/', '.', '/'] + name);
    assert(p[0] == dot[0]);
    if settled(p, start).len() <= start && start == 1 {
        assert(dot[0] == p[0]);
    }
}

/// An idle piece behind a path is settled away.
proof fn lemma_idle_end(p: Seq<char>)
    requires
        p.len() > 0,
    ensures
        body_start(p + seq!['/']) == body_start(p),
        body_start(p + seq!['/', '.']) == body_start(p),
        settled(p + seq!['/'], body_start(p)) == settled(p, body_start(p)),
        settled(p + seq!['/', '.'], body_start(p)) == settled(p, body_start(p)),
{
    let start = body_start(p);
    let slash = p + seq!['/'];
    let dot = p + seq!['/', '.'];
    assert(slash[0] == p[0] && dot[0] == p[0]);
    assert(p.len() > 1 ==> slash[1] == p[1] && dot[1] == p[1]);
    assert(p.len() == 1 ==> slash[1] == '/' && dot[1] == '/');
    assert(slash.last() == '/');
    assert(slash.skip(slash.len() as int) =~= Seq::<char>::empty());
    assert(slash.take(p.len() as int) =~= p);
    assert(piece_start(slash, start) == slash.len());
    assert(without_piece(slash, start) == p);
    assert(dot.drop_last() =~= slash);
    assert(dot.last() == '.');
    assert(piece_start(dot, start) == slash.len());
    assert(dot.skip(slash.len() as int) =~= seq!['.']);
    assert(dot.take(p.len() as int) =~= p);
    assert(without_piece(dot, start) == p);
}

/// The parent of a name behind a path is the path, settled.
proof fn lemma_parent_of_any(p: Seq<char>, name: Seq<char>)
    requires
        p.len() > 0,
        name.len() > 0,
        !name.contains('/'),
        name != seq!['.'],
    ensures
        parent(p + seq!['/'] + name) == Some(settled(p, body_start(p))),
{
    let start = body_start(p);
    let whole = p + seq!['/'] + name;
    assert(whole[0] == p[0]);
    assert(p.len() > 1 ==> whole[1] == p[1]);
    assert(p.len() == 1 ==> whole[1] == '/');
    assert(body_start(whole) == start);
    lemma_piece_of_join(p, name, start, name.len() as int);
    assert(whole.take((p.len() + 1 + name.len()) as int) =~= whole);
    assert(whole.skip((p.len() + 1) as int) =~= name);
    assert(settled(whole, start) == whole);
    assert(whole.take(p.len() as int) =~= p);
    assert(without_piece(whole, start) == p);
}

} // verus!
