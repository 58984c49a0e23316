//! Text operations on `&str`, specified over sequences of characters.

use vstd::prelude::*;
use vstd::string::*;
use vstd::utf8::*;

verus! {

broadcast use vstd::string::group_string_axioms;

/// The pieces of `s` between occurrences of `sep`; there is always one piece more than separators.
pub open spec fn split(s: Seq<char>, sep: char) -> Seq<Seq<char>>
    decreases s.len(),
{
    if s.len() == 0 {
        seq![Seq::empty()]
    } else {
        let done = split(s.drop_last(), sep);
        if s.last() == sep {
            done.push(Seq::empty())
        } else {
            done.update(done.len() - 1, done.last().push(s.last()))
        }
    }
}

/// The pieces put together again, with `sep` between neighbours.
pub open spec fn join(parts: Seq<Seq<char>>, sep: Seq<char>) -> Seq<char>
    decreases parts.len(),
{
    if parts.len() == 0 {
        Seq::empty()
    } else if parts.len() == 1 {
        parts[0]
    } else {
        join(parts.drop_last(), sep) + sep + parts.last()
    }
}

/// The characters with the Unicode property White_Space.
pub open spec fn is_space(c: char) -> bool {
    ||| '\u{9}' <= c <= '\u{d}'
    ||| c == ' '
    ||| c == '\u{85}'
    ||| c == '\u{a0}'
    ||| c == '\u{1680}'
    ||| '\u{2000}' <= c <= '\u{200a}'
    ||| c == '\u{2028}'
    ||| c == '\u{2029}'
    ||| c == '\u{202f}'
    ||| c == '\u{205f}'
    ||| c == '\u{3000}'
}

/// `s` without its leading white space.
pub open spec fn trim_start(s: Seq<char>) -> Seq<char>
    decreases s.len(),
{
    if s.len() > 0 && is_space(s[0]) {
        trim_start(s.skip(1))
    } else {
        s
    }
}

/// `s` without its trailing white space.
pub open spec fn trim_end(s: Seq<char>) -> Seq<char>
    decreases s.len(),
{
    if s.len() > 0 && is_space(s.last()) {
        trim_end(s.drop_last())
    } else {
        s
    }
}

/// `s` without white space at either end.
pub open spec fn trimmed(s: Seq<char>) -> Seq<char> {
    trim_end(trim_start(s))
}

/// The maximal runs of non-space characters of `s`, in order.
pub open spec fn words(s: Seq<char>) -> Seq<Seq<char>>
    decreases s.len(),
{
    if s.len() == 0 {
        Seq::empty()
    } else {
        let done = words(s.drop_last());
        if is_space(s.last()) {
            done
        } else if s.len() == 1 || is_space(s[s.len() - 2]) {
            done.push(seq![s.last()])
        } else {
            done.update(done.len() - 1, done.last().push(s.last()))
        }
    }
}

/// Whether `pat` occurs somewhere in `s`.
pub open spec fn occurs_in(pat: Seq<char>, s: Seq<char>) -> bool {
    exists|i: int| #[trigger] occurs_at(pat, s, i)
}

/// Whether `pat` occurs in `s` at position `i`.
pub open spec fn occurs_at(pat: Seq<char>, s: Seq<char>, i: int) -> bool {
    0 <= i <= s.len() - pat.len() && s.subrange(i, i + pat.len()) == pat
}

/// The views of a list of strings.
pub open spec fn texts(list: Seq<String>) -> Seq<Seq<char>> {
    list.map_values(|t: String| t@)
}

/// The characters of `s` as a vector.
pub fn chars_of(s: &str) -> (r: Vec<char>)
    ensures
        r@ == s@,
{
    let mut r: Vec<char> = Vec::new();
    for c in it: s.chars()
        invariant
            r@ == it.seq().take(it.index()),
            it.seq() == s@,
    {
        r.push(c);
    }
    r
}

/// Different texts have different encodings.
pub proof fn lemma_utf8_injective(a: Seq<char>, b: Seq<char>)
    requires
        encode_utf8(a) == encode_utf8(b),
    ensures
        a == b,
{
    encode_utf8_decode_utf8(a);
    encode_utf8_decode_utf8(b);
}

/// Whether two texts are equal.
pub fn str_eq(a: &str, b: &str) -> (r: bool)
    ensures
        r == (a@ == b@),
{
    let x = a.as_bytes();
    let y = b.as_bytes();
    if x.len() != y.len() {
        return false;
    }
    let mut i: usize = 0;
    while i < x.len()
        invariant
            i <= x@.len(),
            x@.len() == y@.len(),
            x@ == encode_utf8(a@),
            y@ == encode_utf8(b@),
            forall|k: int| 0 <= k < i ==> x@[k] == y@[k],
        decreases x@.len() - i,
    {
        if x[i] != y[i] {
            return false;
        }
        i = i + 1;
    }
    proof {
        assert(x@ =~= y@);
        lemma_utf8_injective(a@, b@);
    }
    true
}

/// `texts` of a list with one more string at its end.
pub proof fn lemma_texts_push(list: Seq<String>, t: String)
    ensures
        texts(list.push(t)) == texts(list).push(t@),
{
    assert(texts(list.push(t)) =~= texts(list).push(t@));
}

/// A list of pieces is never empty.
pub proof fn lemma_split_nonempty(s: Seq<char>, sep: char)
    ensures
        split(s, sep).len() >= 1,
    decreases s.len(),
{
    if s.len() > 0 {
        lemma_split_nonempty(s.drop_last(), sep);
    }
}

/// Cuts `s` at every `sep`.
pub fn split_str(s: &str, sep: char) -> (r: Vec<String>)
    ensures
        texts(r@) == split(s@, sep),
{
    let cs = chars_of(s);
    let mut r: Vec<String> = Vec::new();
    let mut start: usize = 0;
    let mut i: usize = 0;
    proof {
        assert(s@.subrange(0, 0) =~= Seq::<char>::empty());
        assert(texts(r@).push(s@.subrange(0, 0)) =~= split(s@.take(0), sep));
    }
    while i < cs.len()
        invariant
            start <= i <= cs@.len(),
            cs@ == s@,
            texts(r@).push(s@.subrange(start as int, i as int)) == split(s@.take(i as int), sep),
        decreases cs@.len() - i,
    {
        let ghost before = texts(r@);
        let ghost open = s@.subrange(start as int, i as int);
        let ghost prefix = s@.take(i + 1);
        proof {
            assert(prefix.drop_last() =~= s@.take(i as int));
            assert(split(prefix.drop_last(), sep) == before.push(open));
        }
        if cs[i] == sep {
            let piece = s.substring_char(start, i).to_owned();
            proof {
                lemma_texts_push(r@, piece);
            }
            r.push(piece);
            start = i + 1;
            proof {
                assert(s@.subrange(start as int, i + 1) =~= Seq::<char>::empty());
            }
        } else {
            proof {
                assert(s@.subrange(start as int, i + 1) =~= open.push(s@[i as int]));
                assert(before.push(open).update(before.len() as int, open.push(s@[i as int]))
                    =~= before.push(open.push(s@[i as int])));
            }
        }
        i = i + 1;
    }
    let last = s.substring_char(start, i).to_owned();
    proof {
        lemma_texts_push(r@, last);
        assert(s@.take(i as int) =~= s@);
    }
    r.push(last);
    r
}

/// Whether `c` is a white space character.
pub fn is_space_char(c: char) -> (r: bool)
    ensures
        r == is_space(c),
{
    ('\u{9}' <= c && c <= '\u{d}') || c == ' ' || c == '\u{85}' || c == '\u{a0}' || c == '\u{1680}'
        || ('\u{2000}' <= c && c <= '\u{200a}') || c == '\u{2028}' || c == '\u{2029}' || c
        == '\u{202f}' || c == '\u{205f}' || c == '\u{3000}'
}

/// Cuts white space off both ends of `s`.
pub fn trim_str(s: &str) -> (r: &str)
    ensures
        r@ == trimmed(s@),
{
    let cs = chars_of(s);
    let mut from: usize = 0;
    proof {
        assert(s@.skip(0) =~= s@);
    }
    while from < cs.len() && is_space_char(cs[from])
        invariant
            from <= cs@.len(),
            cs@ == s@,
            trim_start(s@.skip(from as int)) == trim_start(s@),
        decreases cs@.len() - from,
    {
        proof {
            assert(s@.skip(from as int).skip(1) =~= s@.skip(from + 1));
        }
        from = from + 1;
    }
    let mut to: usize = cs.len();
    proof {
        assert(s@.subrange(from as int, to as int) =~= s@.skip(from as int));
    }
    while from < to && is_space_char(cs[to - 1])
        invariant
            from <= to <= cs@.len(),
            cs@ == s@,
            trim_end(s@.subrange(from as int, to as int)) == trimmed(s@),
        decreases to,
    {
        proof {
            assert(s@.subrange(from as int, to as int).drop_last() =~= s@.subrange(
                from as int,
                to - 1,
            ));
        }
        to = to - 1;
    }
    s.substring_char(from, to)
}

/// The runs of non-space characters of `s`.
pub fn words_of(s: &str) -> (r: Vec<String>)
    ensures
        texts(r@) == words(s@),
{
    let cs = chars_of(s);
    let mut r: Vec<String> = Vec::new();
    let mut i: usize = 0;
    proof {
        assert(texts(r@) =~= words(s@.take(0)));
    }
    while i < cs.len()
        invariant
            i <= cs@.len(),
            cs@ == s@,
            texts(r@) == words(s@.take(i as int)),
            i > 0 ==> is_space(s@[i - 1]) || i == cs@.len(),
        decreases cs@.len() - i,
    {
        if is_space_char(cs[i]) {
            proof {
                assert(s@.take(i + 1).drop_last() =~= s@.take(i as int));
            }
            i = i + 1;
        } else {
            let start: usize = i;
            let ghost before = texts(r@);
            proof {
                assert(s@.take(i + 1).drop_last() =~= s@.take(i as int));
                assert(s@.subrange(start as int, i + 1) =~= seq![s@[i as int]]);
                assert(words(s@.take(i + 1)) == before.push(seq![s@[i as int]]));
            }
            i = i + 1;
            while i < cs.len() && !is_space_char(cs[i])
                invariant
                    start < i <= cs@.len(),
                    cs@ == s@,
                    !is_space(s@[i - 1]),
                    words(s@.take(i as int)) == before.push(
                        s@.subrange(start as int, i as int),
                    ),
                decreases cs@.len() - i,
            {
                proof {
                    let open = s@.subrange(start as int, i as int);
                    assert(s@.take(i + 1).drop_last() =~= s@.take(i as int));
                    assert(s@.subrange(start as int, i + 1) =~= open.push(s@[i as int]));
                    assert(before.push(open).update(before.len() as int, open.push(s@[i as int]))
                        =~= before.push(open.push(s@[i as int])));
                }
                i = i + 1;
            }
            let word = s.substring_char(start, i).to_owned();
            proof {
                lemma_texts_push(r@, word);
            }
            r.push(word);
            if i < cs.len() {
                proof {
                    assert(s@.take(i + 1).drop_last() =~= s@.take(i as int));
                }
                i = i + 1;
            }
        }
    }
    proof {
        assert(s@.take(i as int) =~= s@);
    }
    r
}

/// Whether `s` begins with `prefix`.
pub fn has_prefix(s: &str, prefix: &str) -> (r: bool)
    ensures
        r == prefix@.is_prefix_of(s@),
{
    let cs = chars_of(s);
    let ps = chars_of(prefix);
    if cs.len() < ps.len() {
        return false;
    }
    let mut i: usize = 0;
    while i < ps.len()
        invariant
            i <= ps@.len() <= cs@.len(),
            cs@ == s@,
            ps@ == prefix@,
            forall|k: int| 0 <= k < i ==> s@[k] == prefix@[k],
        decreases ps@.len() - i,
    {
        if cs[i] != ps[i] {
            proof {
                assert(s@.subrange(0, prefix@.len() as int)[i as int] != prefix@[i as int]);
            }
            return false;
        }
        i = i + 1;
    }
    proof {
        assert(s@.subrange(0, prefix@.len() as int) =~= prefix@);
    }
    true
}

/// What follows `prefix` in `s`, if `s` begins with it.
pub open spec fn after_prefix(s: Seq<char>, prefix: Seq<char>) -> Option<Seq<char>> {
    if prefix.is_prefix_of(s) {
        Some(s.skip(prefix.len() as int))
    } else {
        None
    }
}

/// The rest of `s` behind `prefix`, if `s` begins with it.
pub fn strip_prefix_str<'a>(s: &'a str, prefix: &str) -> (r: Option<&'a str>)
    ensures
        r is Some <==> after_prefix(s@, prefix@) is Some,
        r matches Some(t) ==> after_prefix(s@, prefix@) == Some(t@),
{
    if has_prefix(s, prefix) {
        let n: usize = prefix.unicode_len();
        let m: usize = s.unicode_len();
        let t = s.substring_char(n, m);
        proof {
            assert(s@.skip(prefix@.len() as int) =~= s@.subrange(n as int, m as int));
        }
        Some(t)
    } else {
        None
    }
}

/// Whether `pat` occurs in `s`.
pub fn contains_str(s: &str, pat: &str) -> (r: bool)
    ensures
        r == occurs_in(pat@, s@),
{
    let n: usize = s.unicode_len();
    let m: usize = pat.unicode_len();
    if n < m {
        return false;
    }
    let mut i: usize = 0;
    while i <= n - m
        invariant
            n == s@.len(),
            m == pat@.len(),
            m <= n,
            i <= n - m + 1,
            forall|k: int| 0 <= k < i ==> !#[trigger] occurs_at(pat@, s@, k),
        decreases n - i,
    {
        if str_eq(s.substring_char(i, i + m), pat) {
            proof {
                assert(occurs_at(pat@, s@, i as int));
            }
            return true;
        }
        if i == n - m {
            return false;
        }
        i = i + 1;
    }
    false
}

/// `a` followed by `b`.
pub fn concat2(a: &str, b: &str) -> (r: String)
    ensures
        r@ == a@ + b@,
{
    let mut r = a.to_owned();
    r.append(b);
    r
}

/// `a`, `b` and `c` in a row.
pub fn concat3(a: &str, b: &str, c: &str) -> (r: String)
    ensures
        r@ == a@ + b@ + c@,
{
    let mut r = a.to_owned();
    r.append(b);
    r.append(c);
    r
}

/// Joining the pieces of a split gives the text back.
pub proof fn law_join_undoes_split(s: Seq<char>, sep: char)
    ensures
        join(split(s, sep), seq![sep]) == s,
    decreases s.len(),
{
    lemma_split_nonempty(s, sep);
    if s.len() > 0 {
        let done = split(s.drop_last(), sep);
        lemma_split_nonempty(s.drop_last(), sep);
        law_join_undoes_split(s.drop_last(), sep);
        assert(s.drop_last().push(s.last()) =~= s);
        if s.last() == sep {
            assert(split(s, sep).drop_last() =~= done);
            assert(join(done, seq![sep]) + seq![sep] + Seq::<char>::empty() =~= s);
        } else {
            let now = split(s, sep);
            assert(now.drop_last() =~= done.drop_last());
            assert(now.last() == done.last().push(s.last()));
            if done.len() == 1 {
                assert(now[0] =~= s);
            } else {
                assert(join(done.drop_last(), seq![sep]) + seq![sep] + now.last() =~= s);
            }
        }
    }
}

/// No piece of a split contains the separator.
pub proof fn law_split_pieces(s: Seq<char>, sep: char)
    ensures
        forall|i: int| 0 <= i < split(s, sep).len() ==> !#[trigger] split(s, sep)[i].contains(sep),
    decreases s.len(),
{
    if s.len() > 0 {
        let done = split(s.drop_last(), sep);
        law_split_pieces(s.drop_last(), sep);
        lemma_split_nonempty(s.drop_last(), sep);
        assert forall|i: int| 0 <= i < split(s, sep).len() implies !#[trigger] split(
            s,
            sep,
        )[i].contains(sep) by {
            if s.last() != sep && i == done.len() - 1 {
                assert(!done.last().contains(sep));
                let now = done.last().push(s.last());
                if now.contains(sep) {
                    let k = choose|k: int| 0 <= k < now.len() && now[k] == sep;
                    assert(done.last()[k] == sep);
                }
            }
        }
    }
}

/// Trimming twice is trimming once.
pub proof fn lemma_trimmed_idempotent(s: Seq<char>)
    ensures
        trimmed(trimmed(s)) == trimmed(s),
{
    lemma_trim_start(s);
    lemma_trim_end(trim_start(s));
    let t = trimmed(s);
    lemma_trim_end_start(trim_start(s));
    assert(trim_start(t) == t);
}

/// What is left begins with no space.
proof fn lemma_trim_start(s: Seq<char>)
    ensures
        trim_start(s).len() > 0 ==> !is_space(trim_start(s)[0]),
    decreases s.len(),
{
    if s.len() > 0 && is_space(s[0]) {
        lemma_trim_start(s.skip(1));
    }
}

/// What is left ends with no space.
proof fn lemma_trim_end(s: Seq<char>)
    ensures
        trim_end(s).len() > 0 ==> !is_space(trim_end(s).last()),
        trim_end(trim_end(s)) == trim_end(s),
    decreases s.len(),
{
    if s.len() > 0 && is_space(s.last()) {
        lemma_trim_end(s.drop_last());
    }
}

/// Trimming the end keeps the beginning of what does not vanish.
proof fn lemma_trim_end_start(s: Seq<char>)
    ensures
        trim_end(s).len() > 0 ==> trim_end(s)[0] == s[0],
        trim_end(s).len() <= s.len(),
    decreases s.len(),
{
    if s.len() > 0 && is_space(s.last()) {
        lemma_trim_end_start(s.drop_last());
    }
}

/// A text without the separator is one piece.
pub proof fn law_split_whole(s: Seq<char>, sep: char)
    requires
        !s.contains(sep),
    ensures
        split(s, sep) == seq![s],
    decreases s.len(),
{
    if s.len() == 0 {
        assert(s =~= Seq::empty());
        assert(split(s, sep) =~= seq![s]);
    } else {
        let rest = s.drop_last();
        assert(s[s.len() - 1] != sep);
        assert(!rest.contains(sep)) by {
            if rest.contains(sep) {
                let i = choose|i: int| 0 <= i < rest.len() && rest[i] == sep;
                assert(s[i] == sep);
            }
        }
        law_split_whole(rest, sep);
        assert(rest.push(s.last()) =~= s);
        assert(split(s, sep) =~= seq![s]);
    }
}

/// A separator and a text without it behind a text are one more piece.
pub proof fn law_split_append(s: Seq<char>, last: Seq<char>, sep: char)
    requires
        !last.contains(sep),
    ensures
        split(s + seq![sep] + last, sep) == split(s, sep).push(last),
    decreases last.len(),
{
    let all = s + seq![sep] + last;
    if last.len() == 0 {
        assert(last =~= Seq::empty());
        assert(all.drop_last() =~= s);
        assert(all.last() == sep);
        assert(split(all, sep) =~= split(s, sep).push(last));
    } else {
        let rest = last.drop_last();
        assert(last[last.len() - 1] != sep);
        assert(!rest.contains(sep)) by {
            if rest.contains(sep) {
                let i = choose|i: int| 0 <= i < rest.len() && rest[i] == sep;
                assert(last[i] == sep);
            }
        }
        law_split_append(s, rest, sep);
        assert(all.drop_last() =~= s + seq![sep] + rest);
        assert(rest.push(last.last()) =~= last);
        assert(split(all, sep) =~= split(s, sep).push(last));
    }
}

/// A text starts with a prefix if and only if it is the prefix and what is left.
pub proof fn law_prefix_taken_off(s: Seq<char>, prefix: Seq<char>, rest: Seq<char>)
    ensures
        after_prefix(s, prefix) == Some(rest) <==> s == prefix + rest,
{
    if s == prefix + rest {
        assert(s.subrange(0, prefix.len() as int) =~= prefix);
        assert(s.skip(prefix.len() as int) =~= rest);
    }
    if after_prefix(s, prefix) == Some(rest) {
        assert(s =~= prefix + s.skip(prefix.len() as int));
    }
}

/// Parts without the separator are found again once they are joined.
pub proof fn law_split_undoes_join(parts: Seq<Seq<char>>, sep: char)
    requires
        parts.len() > 0,
        forall|i: int| 0 <= i < parts.len() ==> !(#[trigger] parts[i]).contains(sep),
    ensures
        split(join(parts, seq![sep]), sep) == parts,
    decreases parts.len(),
{
    if parts.len() == 1 {
        assert(!parts[0].contains(sep));
        law_split_whole(parts[0], sep);
        assert(seq![parts[0]] =~= parts);
    } else {
        let rest = parts.drop_last();
        assert forall|i: int| 0 <= i < rest.len() implies !(#[trigger] rest[i]).contains(sep) by {
            assert(rest[i] == parts[i]);
        }
        law_split_undoes_join(rest, sep);
        assert(!parts[parts.len() - 1].contains(sep));
        law_split_append(join(rest, seq![sep]), parts.last(), sep);
        assert(rest.push(parts.last()) =~= parts);
    }
}

/// Trimming takes space off both ends and nothing else: what is left begins and ends with no space,
/// and what was taken off is space alone.
pub proof fn law_trimmed_of_space(s: &str, r: &str)
    requires
        call_ensures(trim_str, (s,), r),
    ensures
        r@.len() > 0 ==> !is_space(r@[0]) && !is_space(r@.last()),
        exists|from: int, to: int|
            #![trigger s@.subrange(from, to)]
            {
                &&& 0 <= from <= to <= s@.len()
                &&& r@ == s@.subrange(from, to)
                &&& forall|i: int| 0 <= i < from ==> is_space(#[trigger] s@[i])
                &&& forall|i: int| to <= i < s@.len() ==> is_space(#[trigger] s@[i])
            },
{
    let t = trim_start(s@);
    lemma_space_off_front(s@);
    lemma_space_off_end(t);
    let from = s@.len() - t.len();
    let to = from + r@.len();
    assert(s@.subrange(from, to) =~= r@);
    assert forall|i: int| to <= i < s@.len() implies is_space(#[trigger] s@[i]) by {
        assert(t[i - from] == s@[i]);
    }
    if r@.len() > 0 {
        assert(r@[0] == t[0]);
    }
}

/// What is taken off the front is space, and what is left does not begin with one.
proof fn lemma_space_off_front(s: Seq<char>)
    ensures
        trim_start(s).len() <= s.len(),
        trim_start(s) == s.skip(s.len() - trim_start(s).len()),
        trim_start(s).len() > 0 ==> !is_space(trim_start(s)[0]),
        forall|i: int| 0 <= i < s.len() - trim_start(s).len() ==> is_space(#[trigger] s[i]),
    decreases s.len(),
{
    if s.len() > 0 && is_space(s[0]) {
        let rest = s.skip(1);
        lemma_space_off_front(rest);
        let t = trim_start(rest);
        assert(t =~= s.skip(s.len() - t.len()));
        assert forall|i: int| 0 <= i < s.len() - t.len() implies is_space(#[trigger] s[i]) by {
            if i > 0 {
                assert(rest[i - 1] == s[i]);
            }
        }
    } else {
        assert(s.skip(0) =~= s);
    }
}

/// What is taken off the end is space, and what is left does not end with one.
proof fn lemma_space_off_end(s: Seq<char>)
    ensures
        trim_end(s).len() <= s.len(),
        trim_end(s) == s.take(trim_end(s).len() as int),
        trim_end(s).len() > 0 ==> !is_space(trim_end(s).last()),
        forall|i: int| trim_end(s).len() <= i < s.len() ==> is_space(#[trigger] s[i]),
    decreases s.len(),
{
    if s.len() > 0 && is_space(s.last()) {
        let rest = s.drop_last();
        lemma_space_off_end(rest);
        let t = trim_end(rest);
        assert(t =~= s.take(t.len() as int));
        assert forall|i: int| t.len() <= i < s.len() implies is_space(#[trigger] s[i]) by {
            if i < rest.len() {
                assert(rest[i] == s[i]);
            }
        }
    } else {
        assert(s.take(s.len() as int) =~= s);
    }
}

/// A text without space is one word, space alone is none, and a word behind a space is one word
/// more.
pub proof fn law_words_between_spaces(s: Seq<char>, c: char, w: Seq<char>)
    requires
        is_space(c),
        w.len() > 0,
        forall|i: int| 0 <= i < w.len() ==> !is_space(#[trigger] w[i]),
    ensures
        words(Seq::<char>::empty()) == Seq::<Seq<char>>::empty(),
        words(w) == seq![w],
        words(s.push(c)) == words(s),
        words(s.push(c) + w) == words(s).push(w),
    decreases w.len(),
{
    assert(s.push(c).drop_last() =~= s);
    assert(!is_space(w[w.len() - 1]));
    let all = s.push(c) + w;
    if w.len() == 1 {
        assert(w =~= seq![w[0]]);
        assert(w.drop_last() =~= Seq::<char>::empty());
        assert(words(w.drop_last()) =~= Seq::<Seq<char>>::empty());
        assert(words(w) =~= seq![w]);
        assert(all.drop_last() =~= s.push(c));
        assert(all[all.len() - 2] == c);
        assert(seq![all.last()] =~= w);
        assert(words(s.push(c)) == words(s));
        assert(!is_space(all.last()));
        assert(words(all.drop_last()) == words(s));
        assert(words(all) =~= words(s).push(w));
    } else {
        let v = w.drop_last();
        assert forall|i: int| 0 <= i < v.len() implies !is_space(#[trigger] v[i]) by {
            assert(v[i] == w[i]);
        }
        law_words_between_spaces(s, c, v);
        assert(!is_space(w[w.len() - 2]));
        assert(v.push(w.last()) =~= w);
        assert(words(w) =~= seq![w]);
        let done = words(s).push(v);
        assert(all.drop_last() =~= s.push(c) + v);
        assert(all[all.len() - 2] == w[w.len() - 2]);
        assert(all.last() == w.last());
        assert(words(all) == done.update(done.len() - 1, v.push(w.last())));
        assert(words(all) =~= words(s).push(w));
    }
}

/// Blanks, tabs and the ends of lines are space, and no visible character of ASCII is.
pub proof fn law_space_is_invisible(c: char, r: bool)
    requires
        call_ensures(is_space_char, (c,), r),
    ensures
        c == ' ' || c == '\t' || c == '\n' || c == '\r' ==> r,
        '!' <= c <= '~' ==> !r,
{
}

/// A text occurs in another if and only if the other is something before it, it, and something
/// behind it.
pub proof fn law_occurs_with_context(s: &str, pat: &str, r: bool)
    requires
        call_ensures(contains_str, (s, pat), r),
    ensures
        r <==> exists|before: Seq<char>, after: Seq<char>|
            s@ == #[trigger] (before + pat@ + after),
{
    if r {
        let i = choose|i: int| #[trigger] occurs_at(pat@, s@, i);
        let before = s@.take(i);
        let after = s@.skip(i + pat@.len());
        assert(s@ =~= before + pat@ + after) by {
            assert forall|k: int| i <= k < i + pat@.len() implies #[trigger] s@[k] == pat@[k - i] by {
                assert(s@.subrange(i, i + pat@.len())[k - i] == s@[k]);
            }
        }
    }
    if exists|before: Seq<char>, after: Seq<char>| s@ == #[trigger] (before + pat@ + after) {
        let (before, after) = choose|before: Seq<char>, after: Seq<char>|
            s@ == #[trigger] (before + pat@ + after);
        let i = before.len() as int;
        assert(s@.subrange(i, i + pat@.len()) =~= pat@);
        assert(occurs_at(pat@, s@, i));
    }
}

/// What follows a prefix is the rest of the text, and a text that does not begin with it has none.
pub proof fn law_rest_follows_prefix(s: &str, prefix: &str, r: Option<&str>, begins: bool)
    requires
        call_ensures(strip_prefix_str, (s, prefix), r),
        call_ensures(has_prefix, (s, prefix), begins),
    ensures
        r matches Some(rest) ==> s@ == prefix@ + rest@,
        begins <==> r is Some,
        r is None ==> forall|rest: Seq<char>| s@ != #[trigger] (prefix@ + rest),
{
    if let Some(rest) = r {
        law_prefix_taken_off(s@, prefix@, rest@);
    } else {
        assert forall|rest: Seq<char>| s@ != #[trigger] (prefix@ + rest) by {
            law_prefix_taken_off(s@, prefix@, rest);
        }
    }
}

/// The pieces of a text hold no separator, and joined by it they are the text again.
pub proof fn law_pieces_make_text(s: &str, sep: char, r: Vec<String>)
    requires
        call_ensures(split_str, (s, sep), r),
    ensures
        r@.len() > 0,
        join(texts(r@), seq![sep]) == s@,
        forall|i: int| 0 <= i < r@.len() ==> !(#[trigger] r@[i])@.contains(sep),
{
    law_join_undoes_split(s@, sep);
    law_split_pieces(s@, sep);
    lemma_split_nonempty(s@, sep);
    assert(texts(r@).len() == r@.len());
    assert forall|i: int| 0 <= i < r@.len() implies !(#[trigger] r@[i])@.contains(sep) by {
        assert(texts(r@)[i] == r@[i]@);
    }
}

/// Words are never empty and hold no space.
pub proof fn law_words_hold_no_space(s: &str, r: Vec<String>, i: int)
    requires
        call_ensures(words_of, (s,), r),
        0 <= i < r@.len(),
    ensures
        r@[i]@.len() > 0,
        forall|k: int| 0 <= k < r@[i]@.len() ==> !is_space(#[trigger] r@[i]@[k]),
{
    lemma_words_clean(s@);
    assert(texts(r@)[i] == r@[i]@);
    assert(texts(r@).len() == r@.len());
}

/// Words are never empty and hold no space.
proof fn lemma_words_clean(s: Seq<char>)
    ensures
        s.len() > 0 && !is_space(s.last()) ==> words(s).len() > 0,
        forall|i: int|
            0 <= i < words(s).len() ==> (#[trigger] words(s)[i]).len() > 0 && forall|k: int|
                0 <= k < words(s)[i].len() ==> !is_space(#[trigger] words(s)[i][k]),
    decreases s.len(),
{
    if s.len() > 0 {
        let rest = s.drop_last();
        lemma_words_clean(rest);
        let done = words(rest);
        let now = words(s);
        if s.len() > 1 {
            assert(rest.last() == s[s.len() - 2]);
        }
        assert forall|i: int| 0 <= i < now.len() implies (#[trigger] now[i]).len() > 0 && forall|
            k: int,
        |
            0 <= k < now[i].len() ==> !is_space(#[trigger] now[i][k]) by {
            if i < done.len() {
                assert(done[i].len() > 0);
            }
        }
    }
}

} // verus!
