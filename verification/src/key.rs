//! The lookup key of a request: the hostname's labels in reverse order,
//! followed by the file stem of the path.

use crate::text::{
    chars_of, first_index, join, last_index, lemma_first_index, lemma_first_index_unique,
    lemma_join_front, lemma_join_split, lemma_last_index, lemma_last_index_unique,
    lemma_split_first, lemma_split_join, lemma_split_last, lemma_split_nonempty,
    lemma_split_pieces, lemma_trim_start_keeps_tail, push_chars, split, trim_start,
};
use vstd::prelude::*;
use vstd::string::*;

verus! {

/// The stem used when the path names no file.
pub open spec fn default_stem() -> Seq<char> {
    "index"@
}

/// The labels of `host` in reverse order, joined with dots.
pub open spec fn reversed_host_spec(host: Seq<char>) -> Seq<char> {
    join(split(host, '.').reverse(), '.')
}

/// The file stem of `path`: leading slashes are dropped, the last segment is
/// taken, and of that what precedes its first dot. An empty last segment,
/// which includes an empty path, gives the default stem.
pub open spec fn file_stem_spec(path: Seq<char>) -> Seq<char> {
    let rest = trim_start(path, '/');
    if rest.len() == 0 {
        default_stem()
    } else {
        let segment = split(rest, '/').last();
        if segment.len() == 0 {
            default_stem()
        } else {
            split(segment, '.').first()
        }
    }
}

/// The key under which the record of (`host`, `path`) is looked up.
pub open spec fn lookup_key_spec(host: Seq<char>, path: Seq<char>) -> Seq<char> {
    reversed_host_spec(host).push('.') + file_stem_spec(path)
}

/// Reversing the labels of `s` puts what follows its last dot first, then a
/// dot, then the reversed labels of what precedes that dot.
pub proof fn lemma_reversed_host_step(s: Seq<char>)
    ensures
        last_index(s, '.') < 0 ==> reversed_host_spec(s) == s,
        last_index(s, '.') >= 0 ==> reversed_host_spec(s) == s.skip(last_index(s, '.') + 1).push(
            '.',
        ) + reversed_host_spec(s.take(last_index(s, '.'))),
{
    lemma_last_index(s, '.');
    let j = last_index(s, '.');
    if j >= 0 {
        let front = split(s.take(j), '.');
        let tail = s.skip(j + 1);
        lemma_split_nonempty(s.take(j), '.');
        assert(front.push(tail).reverse() =~= seq![tail] + front.reverse());
        lemma_join_front(tail, front.reverse(), '.');
    } else {
        assert(seq![s].reverse() =~= seq![s]);
    }
}

/// The hostname's labels in reverse order, joined with dots.
pub fn reversed_host(host: &str) -> (out: String)
    ensures
        out@ == reversed_host_spec(host@),
{
    let chars = chars_of(host);
    let mut out = String::new();
    let mut end: usize = chars.len();
    proof {
        assert(host@.take(end as int) =~= host@);
    }
    loop
        invariant_except_break
            reversed_host_spec(host@) == out@ + reversed_host_spec(host@.take(end as int)),
        invariant
            chars@ == host@,
            end <= chars@.len(),
        ensures
            out@ == reversed_host_spec(host@),
        decreases end,
    {
        let ghost label_end = host@.take(end as int);
        let mut start: usize = end;
        while start > 0 && chars[start - 1] != '.'
            invariant
                chars@ == host@,
                start <= end <= chars@.len(),
                forall|k: int| start <= k < end ==> host@[k] != '.',
            decreases start,
        {
            start -= 1;
        }
        proof {
            lemma_last_index_unique(label_end, '.', start as int - 1);
            lemma_reversed_host_step(label_end);
            assert(label_end.skip(start as int) =~= host@.subrange(start as int, end as int));
        }
        let ghost before = out@;
        push_chars(&mut out, chars.as_slice(), start, end);
        if start == 0 {
            break;
        }
        out.push('.');
        proof {
            assert(label_end.take(start as int - 1) =~= host@.take(start as int - 1));
            assert(out@ + reversed_host_spec(host@.take(start as int - 1)) =~= before
                + reversed_host_spec(label_end));
        }
        end = start - 1;
    }
    out
}

/// The last segment of `path`: what follows its last slash.
pub open spec fn last_segment(path: Seq<char>) -> Seq<char> {
    path.skip(last_index(path, '/') + 1)
}

/// The stem of one segment: what precedes its first dot, or the default stem
/// when the segment is empty.
pub open spec fn segment_stem(segment: Seq<char>) -> Seq<char> {
    if segment.len() == 0 {
        default_stem()
    } else {
        segment.take(first_index(segment, '.'))
    }
}

/// The file stem is the stem of what follows the last slash of the path:
/// dropping the leading slashes first changes nothing.
pub proof fn lemma_file_stem_by_last_slash(path: Seq<char>)
    ensures
        file_stem_spec(path) == segment_stem(last_segment(path)),
{
    let rest = trim_start(path, '/');
    lemma_trim_start_keeps_tail(path, '/');
    lemma_split_last(rest, '/');
    lemma_last_index(rest, '/');
    let segment = split(rest, '/').last();
    if rest.len() > 0 && segment.len() > 0 {
        lemma_split_first(segment, '.');
    }
}

/// The file stem of `path`.
pub fn file_stem(path: &str) -> (out: String)
    ensures
        out@ == file_stem_spec(path@),
{
    let chars = chars_of(path);
    let n = chars.len();
    let mut start: usize = n;
    while start > 0 && chars[start - 1] != '/'
        invariant
            chars@ == path@,
            start <= n == chars@.len(),
            forall|k: int| start <= k < n ==> path@[k] != '/',
        decreases start,
    {
        start -= 1;
    }
    proof {
        lemma_last_index_unique(path@, '/', start as int - 1);
        lemma_file_stem_by_last_slash(path@);
    }
    if start == n {
        return String::from_str("index");
    }
    let ghost segment = last_segment(path@);
    let mut end: usize = start;
    while end < n && chars[end] != '.'
        invariant
            chars@ == path@,
            start <= end <= n == chars@.len(),
            segment == path@.skip(start as int),
            forall|k: int| 0 <= k < end - start ==> segment[k] != '.',
        decreases n - end,
    {
        end += 1;
    }
    proof {
        lemma_first_index_unique(segment, '.', end - start);
        assert(segment.take(end - start) =~= path@.subrange(start as int, end as int));
    }
    let mut out = String::new();
    push_chars(&mut out, chars.as_slice(), start, end);
    out
}

/// The lookup key made of the reversed `host` and a file stem already
/// derived.
pub fn key_for(host: &str, stem: &str) -> (key: String)
    ensures
        key@ == reversed_host_spec(host@).push('.') + stem@,
{
    let mut key = reversed_host(host);
    key.push('.');
    key.append(stem);
    key
}

/// The lookup key of (`host`, `path`). It depends on nothing but these two.
pub fn lookup_key(host: &str, path: &str) -> (key: String)
    ensures
        key@ == lookup_key_spec(host@, path@),
{
    let stem = file_stem(path);
    key_for(host, stem.as_str())
}

/// For labels free of dots, the reversed host of their dotted join is the
/// dotted join of the labels in reverse order: `a.b.c` becomes `c.b.a`.
pub proof fn lemma_reversed_host_of_labels(labels: Seq<Seq<char>>)
    requires
        labels.len() >= 1,
        forall|i: int| 0 <= i < labels.len() ==> !(#[trigger] labels[i]).contains('.'),
    ensures
        reversed_host_spec(join(labels, '.')) == join(labels.reverse(), '.'),
{
    lemma_split_join(labels, '.');
}

/// A hostname of a single label, one without a dot, is left unchanged.
pub proof fn lemma_single_label_unchanged(host: Seq<char>)
    requires
        !host.contains('.'),
    ensures
        reversed_host_spec(host) == host,
{
    let labels = seq![host];
    lemma_reversed_host_of_labels(labels);
    assert(labels.reverse() =~= labels);
}

/// Reversing the labels twice gives the hostname back.
pub proof fn lemma_reversed_host_twice(host: Seq<char>)
    ensures
        reversed_host_spec(reversed_host_spec(host)) == host,
{
    let labels = split(host, '.');
    let turned = labels.reverse();
    lemma_split_nonempty(host, '.');
    lemma_split_pieces(host, '.');
    assert forall|i: int| 0 <= i < turned.len() implies !(#[trigger] turned[i]).contains('.') by {
        assert(turned[i] == labels[labels.len() - 1 - i]);
    }
    lemma_reversed_host_of_labels(turned);
    assert(turned.reverse() =~= labels);
    lemma_join_split(host, '.');
}

/// A file stem holds no dot.
pub proof fn lemma_file_stem_holds_no_dot(path: Seq<char>)
    ensures
        !file_stem_spec(path).contains('.'),
{
    lemma_file_stem_by_last_slash(path);
    let segment = last_segment(path);
    let stem = file_stem_spec(path);
    if segment.len() == 0 {
        reveal_strlit("index");
        assert forall|k: int| 0 <= k < stem.len() implies stem[k] != '.' by {}
    } else {
        lemma_first_index(segment, '.');
        assert forall|k: int| 0 <= k < stem.len() implies stem[k] != '.' by {
            assert(stem[k] == segment[k]);
        }
    }
}

/// Two requests with the same lookup key have the same hostname and the
/// same file stem: no two hostnames share a key.
pub proof fn lemma_key_tells_hosts_apart(
    host: Seq<char>,
    path: Seq<char>,
    other_host: Seq<char>,
    other_path: Seq<char>,
)
    requires
        lookup_key_spec(host, path) == lookup_key_spec(other_host, other_path),
    ensures
        host == other_host,
        file_stem_spec(path) == file_stem_spec(other_path),
{
    lemma_key_parts(host, path);
    lemma_key_parts(other_host, other_path);
    lemma_reversed_host_twice(host);
    lemma_reversed_host_twice(other_host);
}

/// The last dot of a lookup key parts the reversed hostname from the file
/// stem.
pub proof fn lemma_key_parts(host: Seq<char>, path: Seq<char>)
    ensures
        last_index(lookup_key_spec(host, path), '.') == reversed_host_spec(host).len(),
        lookup_key_spec(host, path).take(reversed_host_spec(host).len() as int)
            == reversed_host_spec(host),
        lookup_key_spec(host, path).skip(reversed_host_spec(host).len() as int + 1)
            == file_stem_spec(path),
{
    let key = lookup_key_spec(host, path);
    let front = reversed_host_spec(host);
    let stem = file_stem_spec(path);
    let at = front.len() as int;
    lemma_file_stem_holds_no_dot(path);
    assert forall|k: int| at < k < key.len() implies key[k] != '.' by {
        assert(key[k] == stem[k - at - 1]);
        assert(stem.contains(key[k]));
    }
    lemma_last_index_unique(key, '.', at);
    assert(key.take(at) =~= front);
    assert(key.skip(at + 1) =~= stem);
}

/// The empty path has the default stem.
pub proof fn lemma_file_stem_of_empty()
    ensures
        file_stem_spec(Seq::empty()) == default_stem(),
{
}

/// A path that ends in a slash has the default stem.
pub proof fn lemma_file_stem_trailing_slash(path: Seq<char>)
    requires
        path.len() > 0,
        path.last() == '/',
    ensures
        file_stem_spec(path) == default_stem(),
{
    lemma_file_stem_by_last_slash(path);
}

/// A path whose last segment is `name` followed by nothing or by an
/// extension has the stem `name`. `front` is what precedes the segment,
/// `tail` the extension with its dot; `name` is not empty and holds neither
/// a slash nor a dot.
pub proof fn lemma_file_stem_of_name(front: Seq<char>, name: Seq<char>, tail: Seq<char>)
    requires
        front.len() == 0 || front.last() == '/',
        name.len() > 0,
        !name.contains('/'),
        !name.contains('.'),
        tail.len() == 0 || tail[0] == '.',
        !tail.contains('/'),
    ensures
        file_stem_spec(front + name + tail) == name,
{
    let path = front + name + tail;
    let segment = name + tail;
    assert forall|k: int| front.len() - 1 < k < path.len() implies path[k] != '/' by {
        if k < front.len() + name.len() {
            assert(name.contains(path[k]));
        } else {
            assert(tail.contains(path[k]));
        }
    }
    lemma_last_index_unique(path, '/', front.len() - 1);
    assert(last_segment(path) =~= segment);
    assert forall|k: int| 0 <= k < name.len() implies segment[k] != '.' by {
        assert(name.contains(segment[k]));
    }
    lemma_first_index_unique(segment, '.', name.len() as int);
    assert(segment.take(name.len() as int) =~= name);
    lemma_file_stem_by_last_slash(path);
}

} // verus!
