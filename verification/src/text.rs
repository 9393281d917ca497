//! Character sequences: searching, splitting and joining, with the executable
//! helpers that move between `&str`, `Vec<char>` and `String`.

use vstd::prelude::*;
use vstd::string::*;

verus! {

/// Index of the first `c` in `s`, or `s.len()` when `s` holds none.
pub open spec fn first_index(s: Seq<char>, c: char) -> int
    decreases s.len(),
{
    if s.len() == 0 || s[0] == c {
        0
    } else {
        1 + first_index(s.drop_first(), c)
    }
}

/// Index of the last `c` in `s`, or `-1` when `s` holds none.
pub open spec fn last_index(s: Seq<char>, c: char) -> int
    decreases s.len(),
{
    if s.len() == 0 {
        -1
    } else if s.last() == c {
        s.len() - 1
    } else {
        last_index(s.drop_last(), c)
    }
}

/// The pieces of `s` between occurrences of `sep`, in order. There is always
/// at least one piece; a text without `sep` is its own single piece.
pub open spec fn split(s: Seq<char>, sep: char) -> Seq<Seq<char>>
    decreases s.len(),
{
    let j = last_index(s, sep);
    if 0 <= j < s.len() {
        split(s.take(j), sep).push(s.skip(j + 1))
    } else {
        seq![s]
    }
}

/// The parts written one after another with `sep` between neighbours.
pub open spec fn join(parts: Seq<Seq<char>>, sep: char) -> Seq<char>
    decreases parts.len(),
{
    if parts.len() == 0 {
        Seq::empty()
    } else if parts.len() == 1 {
        parts[0]
    } else {
        join(parts.drop_last(), sep).push(sep) + parts.last()
    }
}

/// `s` without its leading run of `c`.
pub open spec fn trim_start(s: Seq<char>, c: char) -> Seq<char>
    decreases s.len(),
{
    if s.len() > 0 && s[0] == c {
        trim_start(s.drop_first(), c)
    } else {
        s
    }
}

/// What `first_index` returns is in range, is the place of a `c` unless it is
/// the length, and no `c` stands before it.
pub proof fn lemma_first_index(s: Seq<char>, c: char)
    ensures
        0 <= first_index(s, c) <= s.len(),
        first_index(s, c) < s.len() ==> s[first_index(s, c)] == c,
        forall|k: int| 0 <= k < first_index(s, c) ==> s[k] != c,
    decreases s.len(),
{
    if s.len() == 0 || s[0] == c {
    } else {
        let rest = s.drop_first();
        lemma_first_index(rest, c);
        assert forall|k: int| 0 <= k < first_index(s, c) implies s[k] != c by {
            if k > 0 {
                assert(rest[k - 1] == s[k]);
            }
        }
    }
}

/// An index with no `c` before it, which holds a `c` or is the length, is the
/// one that `first_index` returns.
pub proof fn lemma_first_index_unique(s: Seq<char>, c: char, i: int)
    requires
        0 <= i <= s.len(),
        i < s.len() ==> s[i] == c,
        forall|k: int| 0 <= k < i ==> s[k] != c,
    ensures
        first_index(s, c) == i,
{
    lemma_first_index(s, c);
}

/// What `last_index` returns is in range, is the place of a `c` unless it is
/// `-1`, and no `c` stands after it.
pub proof fn lemma_last_index(s: Seq<char>, c: char)
    ensures
        -1 <= last_index(s, c) < s.len(),
        0 <= last_index(s, c) ==> s[last_index(s, c)] == c,
        forall|k: int| last_index(s, c) < k < s.len() ==> s[k] != c,
    decreases s.len(),
{
    if s.len() == 0 || s.last() == c {
    } else {
        let front = s.drop_last();
        lemma_last_index(front, c);
        assert forall|k: int| last_index(s, c) < k < s.len() implies s[k] != c by {
            if k < s.len() - 1 {
                assert(front[k] == s[k]);
            }
        }
    }
}

/// An index with no `c` after it, which holds a `c` or is `-1`, is the one
/// that `last_index` returns.
pub proof fn lemma_last_index_unique(s: Seq<char>, c: char, j: int)
    requires
        -1 <= j < s.len(),
        0 <= j ==> s[j] == c,
        forall|k: int| j < k < s.len() ==> s[k] != c,
    ensures
        last_index(s, c) == j,
{
    lemma_last_index(s, c);
}

/// A split always yields at least one piece.
pub proof fn lemma_split_nonempty(s: Seq<char>, sep: char)
    ensures
        split(s, sep).len() >= 1,
    decreases s.len(),
{
    let j = last_index(s, sep);
    if 0 <= j < s.len() {
        lemma_split_nonempty(s.take(j), sep);
    }
}

/// The last piece is what follows the last separator.
pub proof fn lemma_split_last(s: Seq<char>, sep: char)
    ensures
        split(s, sep).last() == s.skip(last_index(s, sep) + 1),
{
    lemma_last_index(s, sep);
    if last_index(s, sep) < 0 {
        assert(s.skip(0) =~= s);
    }
}

/// The first piece is what precedes the first separator.
pub proof fn lemma_split_first(s: Seq<char>, sep: char)
    ensures
        split(s, sep).first() == s.take(first_index(s, sep)),
    decreases s.len(),
{
    lemma_last_index(s, sep);
    lemma_first_index(s, sep);
    let j = last_index(s, sep);
    let i = first_index(s, sep);
    if 0 <= j {
        let front = s.take(j);
        lemma_split_first(front, sep);
        lemma_split_nonempty(front, sep);
        assert(i <= j);
        lemma_first_index_unique(front, sep, i);
        assert(front.take(i) =~= s.take(i));
    } else {
        assert(i == s.len());
        assert(s.take(i) =~= s);
    }
}

/// Joining a first part and at least one more puts the first part and a
/// separator in front of the others joined.
pub proof fn lemma_join_front(first: Seq<char>, rest: Seq<Seq<char>>, sep: char)
    requires
        rest.len() >= 1,
    ensures
        join(seq![first] + rest, sep) == first.push(sep) + join(rest, sep),
    decreases rest.len(),
{
    let all = seq![first] + rest;
    assert(all.drop_last() =~= seq![first] + rest.drop_last());
    assert(all.last() == rest.last());
    if rest.len() == 1 {
        assert(all.drop_last() =~= seq![first]);
        assert(join(all.drop_last(), sep) == first);
        assert(join(rest, sep) == rest[0]);
        assert(join(all, sep) =~= first.push(sep) + rest[0]);
    } else {
        lemma_join_front(first, rest.drop_last(), sep);
        assert(join(all, sep) =~= first.push(sep) + join(rest, sep));
    }
}

/// Splitting a join gives the parts back, when there is at least one part
/// and no part holds the separator.
pub proof fn lemma_split_join(parts: Seq<Seq<char>>, sep: char)
    requires
        parts.len() >= 1,
        forall|i: int| 0 <= i < parts.len() ==> !(#[trigger] parts[i]).contains(sep),
    ensures
        split(join(parts, sep), sep) == parts,
    decreases parts.len(),
{
    let joined = join(parts, sep);
    let last = parts.last();
    assert(!last.contains(sep));
    if parts.len() == 1 {
        assert forall|k: int| -1 < k < joined.len() implies joined[k] != sep by {
            assert(last.contains(joined[k]));
        }
        lemma_last_index_unique(joined, sep, -1);
        assert(split(joined, sep) =~= parts);
    } else {
        let front = parts.drop_last();
        let at = join(front, sep).len() as int;
        assert forall|k: int| at < k < joined.len() implies joined[k] != sep by {
            assert(joined[k] == last[k - at - 1]);
            assert(last.contains(joined[k]));
        }
        lemma_last_index_unique(joined, sep, at);
        assert(joined.take(at) =~= join(front, sep));
        assert(joined.skip(at + 1) =~= last);
        lemma_split_join(front, sep);
        assert(split(joined, sep) =~= parts);
    }
}

/// No piece of a split holds the separator.
pub proof fn lemma_split_pieces(s: Seq<char>, sep: char)
    ensures
        forall|i: int|
            0 <= i < split(s, sep).len() ==> !(#[trigger] split(s, sep)[i]).contains(sep),
    decreases s.len(),
{
    lemma_last_index(s, sep);
    let j = last_index(s, sep);
    let pieces = split(s, sep);
    if 0 <= j {
        let front = split(s.take(j), sep);
        let tail = s.skip(j + 1);
        lemma_split_pieces(s.take(j), sep);
        assert forall|i: int| 0 <= i < pieces.len() implies !(#[trigger] pieces[i]).contains(
            sep,
        ) by {
            if i < front.len() {
                assert(pieces[i] == front[i]);
            } else {
                assert(pieces[i] == tail);
                if tail.contains(sep) {
                    let k = choose|k: int| 0 <= k < tail.len() && tail[k] == sep;
                    assert(s[j + 1 + k] == sep);
                }
            }
        }
    } else {
        assert(pieces =~= seq![s]);
        if s.contains(sep) {
            let k = choose|k: int| 0 <= k < s.len() && s[k] == sep;
            assert(s[k] == sep);
        }
    }
}

/// Joining the pieces of a split gives the text back.
pub proof fn lemma_join_split(s: Seq<char>, sep: char)
    ensures
        join(split(s, sep), sep) == s,
    decreases s.len(),
{
    lemma_last_index(s, sep);
    let j = last_index(s, sep);
    if 0 <= j {
        let front = split(s.take(j), sep);
        let tail = s.skip(j + 1);
        let parts = front.push(tail);
        lemma_join_split(s.take(j), sep);
        lemma_split_nonempty(s.take(j), sep);
        assert(parts.drop_last() =~= front);
        assert(join(parts, sep) == join(front, sep).push(sep) + tail);
        assert(s.take(j).push(sep) + tail =~= s);
    }
}

/// Leading occurrences of `c` have no part in what follows the last `c`.
pub proof fn lemma_trim_start_keeps_tail(s: Seq<char>, c: char)
    ensures
        trim_start(s, c).skip(last_index(trim_start(s, c), c) + 1) == s.skip(
            last_index(s, c) + 1,
        ),
    decreases s.len(),
{
    if s.len() > 0 && s[0] == c {
        let rest = s.drop_first();
        lemma_trim_start_keeps_tail(rest, c);
        lemma_last_index(rest, c);
        let j = last_index(rest, c);
        assert forall|k: int| j + 1 < k < s.len() implies s[k] != c by {
            assert(rest[k - 1] == s[k]);
        }
        lemma_last_index_unique(s, c, j + 1);
        assert(rest.skip(j + 1) =~= s.skip(j + 2));
    }
}

/// Whether `pattern` stands in `text` at index `i`.
pub open spec fn occurs_at(text: Seq<char>, pattern: Seq<char>, i: int) -> bool {
    &&& 0 <= i
    &&& i + pattern.len() <= text.len()
    &&& text.subrange(i, i + pattern.len()) == pattern
}

/// The greatest index up to `limit` at which `pattern` stands in `text`, or
/// `-1` when there is none.
pub open spec fn last_occurrence(text: Seq<char>, pattern: Seq<char>, limit: int) -> int
    decreases limit + 1,
{
    if limit < 0 {
        -1
    } else if occurs_at(text, pattern, limit) {
        limit
    } else {
        last_occurrence(text, pattern, limit - 1)
    }
}

/// What follows the last occurrence of `pattern` in `text`; all of `text`
/// when `pattern` does not occur in it.
pub open spec fn after_last(text: Seq<char>, pattern: Seq<char>) -> Seq<char> {
    let at = last_occurrence(text, pattern, text.len() as int);
    if at < 0 {
        text
    } else {
        text.skip(at + pattern.len())
    }
}

/// What `last_occurrence` returns is `-1` or the place of an occurrence up to
/// the limit, and no occurrence up to the limit follows it.
pub proof fn lemma_last_occurrence(text: Seq<char>, pattern: Seq<char>, limit: int)
    ensures
        -1 <= last_occurrence(text, pattern, limit),
        last_occurrence(text, pattern, limit) <= limit || limit < 0,
        0 <= last_occurrence(text, pattern, limit) ==> occurs_at(
            text,
            pattern,
            last_occurrence(text, pattern, limit),
        ),
        forall|k: int|
            last_occurrence(text, pattern, limit) < k <= limit ==> !occurs_at(text, pattern, k),
    decreases limit + 1,
{
    if limit >= 0 && !occurs_at(text, pattern, limit) {
        lemma_last_occurrence(text, pattern, limit - 1);
    }
}

/// An index that is `-1` or the place of an occurrence up to the limit, with
/// no occurrence between it and the limit, is what `last_occurrence` returns.
pub proof fn lemma_last_occurrence_unique(
    text: Seq<char>,
    pattern: Seq<char>,
    limit: int,
    at: int,
)
    requires
        -1 <= at <= limit,
        0 <= at ==> occurs_at(text, pattern, at),
        forall|k: int| at < k <= limit ==> !occurs_at(text, pattern, k),
    ensures
        last_occurrence(text, pattern, limit) == at,
{
    lemma_last_occurrence(text, pattern, limit);
}

/// A text in which `pattern` does not occur is left whole.
pub proof fn lemma_after_last_without(text: Seq<char>, pattern: Seq<char>)
    requires
        forall|i: int| !occurs_at(text, pattern, i),
    ensures
        after_last(text, pattern) == text,
{
    lemma_last_occurrence(text, pattern, text.len() as int);
}

/// Of a text that begins with `pattern` and holds it nowhere else, what
/// follows the pattern is left.
pub proof fn lemma_after_last_of_prefixed(pattern: Seq<char>, rest: Seq<char>)
    requires
        forall|i: int| i > 0 ==> !occurs_at(pattern + rest, pattern, i),
    ensures
        after_last(pattern + rest, pattern) == rest,
{
    let text = pattern + rest;
    assert(text.subrange(0, pattern.len() as int) =~= pattern);
    lemma_last_occurrence_unique(text, pattern, text.len() as int, 0);
    assert(text.skip(pattern.len() as int) =~= rest);
}

/// The characters of `s`, in order.
pub fn chars_of(s: &str) -> (out: Vec<char>)
    ensures
        out@ == s@,
{
    let mut out: Vec<char> = Vec::new();
    for c in it: s.chars()
        invariant
            out@ == it.seq().take(it.index() as int),
            it.seq() == s@,
    {
        out.push(c);
    }
    out
}

/// Appends `chars[from..to]` to `out`.
pub(crate) fn push_chars(out: &mut String, chars: &[char], from: usize, to: usize)
    requires
        from <= to <= chars@.len(),
    ensures
        final(out)@ == old(out)@ + chars@.subrange(from as int, to as int),
{
    let mut i: usize = from;
    while i < to
        invariant
            from <= i <= to <= chars@.len(),
            out@ == old(out)@ + chars@.subrange(from as int, i as int),
        decreases to - i,
    {
        out.push(chars[i]);
        i += 1;
    }
}

/// Whether `pattern` stands in `text` at index `i`.
pub fn matches_at(text: &[char], pattern: &[char], i: usize) -> (found: bool)
    ensures
        found == occurs_at(text@, pattern@, i as int),
{
    let n = text.len();
    let m = pattern.len();
    if m > n || i > n - m {
        return false;
    }
    let mut k: usize = 0;
    while k < m
        invariant
            n == text@.len(),
            m == pattern@.len(),
            i + m <= n,
            k <= m,
            forall|j: int| 0 <= j < k ==> text@[i + j] == pattern@[j],
        decreases m - k,
    {
        if text[i + k] != pattern[k] {
            proof {
                let part = text@.subrange(i as int, i + m);
                assert(part[k as int] != pattern@[k as int]);
            }
            return false;
        }
        k += 1;
    }
    proof {
        assert(text@.subrange(i as int, i + m) =~= pattern@);
    }
    true
}

/// The index at which what follows the last occurrence of `pattern` in
/// `text` begins; `0` when `pattern` does not occur.
pub fn after_last_start(text: &[char], pattern: &[char]) -> (start: usize)
    ensures
        start <= text@.len(),
        text@.skip(start as int) == after_last(text@, pattern@),
{
    let n = text.len();
    let m = pattern.len();
    if m > n {
        proof {
            lemma_last_occurrence_unique(text@, pattern@, n as int, -1);
            assert(text@.skip(0) =~= text@);
        }
        return 0;
    }
    let mut at: usize = n - m;
    loop
        invariant
            n == text@.len(),
            m == pattern@.len(),
            at + m <= n,
            forall|k: int| at < k <= n ==> !occurs_at(text@, pattern@, k),
        decreases at,
    {
        if matches_at(text, pattern, at) {
            proof {
                lemma_last_occurrence_unique(text@, pattern@, n as int, at as int);
            }
            return at + m;
        }
        if at == 0 {
            proof {
                lemma_last_occurrence_unique(text@, pattern@, n as int, -1);
                assert(text@.skip(0) =~= text@);
            }
            return 0;
        }
        at -= 1;
    }
}

} // verus!
