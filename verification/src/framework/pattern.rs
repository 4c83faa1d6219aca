//! Path patterns.
//!
//! A pattern and a path are both read as segments separated by `/`. A
//! pattern segment written in braces, such as `{id}`, is a parameter and
//! stands for any one non-empty segment. A final pattern segment `*`
//! stands for whatever is left of the path, one segment or more. Every
//! other pattern segment stands for itself.

use vstd::prelude::*;

verus! {

/// The segments of a path: the pieces between its `/` separators, in
/// order. A path with `n` separators has `n + 1` segments, some of which
/// may be empty.
pub open spec fn split_path(s: Seq<char>) -> Seq<Seq<char>>
    decreases s.len(),
{
    if s.len() == 0 {
        seq![Seq::<char>::empty()]
    } else {
        let init = split_path(s.drop_last());
        if s.last() == '/' {
            init.push(Seq::<char>::empty())
        } else {
            init.drop_last().push(init.last().push(s.last()))
        }
    }
}

/// Whether a pattern segment is a parameter: an opening brace, a name
/// (possibly empty), a closing brace.
pub open spec fn is_parameter(segment: Seq<char>) -> bool {
    segment.len() >= 2 && segment.first() == '{' && segment.last() == '}'
}

/// Whether a pattern segment is the wildcard `*`.
pub open spec fn is_wildcard(segment: Seq<char>) -> bool {
    segment.len() == 1 && segment[0] == '*'
}

/// Whether one pattern segment accepts one path segment.
pub open spec fn segment_matches(pattern: Seq<char>, path: Seq<char>) -> bool {
    if is_parameter(pattern) {
        path.len() > 0
    } else {
        pattern == path
    }
}

/// Whether the segments of a pattern accept the segments of a path.
pub open spec fn segments_match(pattern: Seq<Seq<char>>, path: Seq<Seq<char>>) -> bool {
    if pattern.len() > 0 && is_wildcard(pattern.last()) {
        &&& path.len() >= pattern.len()
        &&& forall|i: int|
            0 <= i < pattern.len() - 1 ==> segment_matches(#[trigger] pattern[i], path[i])
    } else {
        &&& path.len() == pattern.len()
        &&& forall|i: int|
            0 <= i < pattern.len() ==> segment_matches(#[trigger] pattern[i], path[i])
    }
}

/// Whether a pattern accepts a path.
pub open spec fn path_matches(pattern: Seq<char>, path: Seq<char>) -> bool {
    segments_match(split_path(pattern), split_path(path))
}

/// Segments held as vectors, as mathematical values.
pub open spec fn segments_view(segments: Seq<Vec<char>>) -> Seq<Seq<char>> {
    segments.map_values(|s: Vec<char>| s@)
}

/// Splits a path into its segments.
pub fn split_segments(s: &str) -> (segments: Vec<Vec<char>>)
    ensures
        segments_view(segments@) == split_path(s@),
{
    let mut done: Vec<Vec<char>> = Vec::new();
    let mut current: Vec<char> = Vec::new();
    assert(segments_view(done@).push(current@) =~= split_path(Seq::<char>::empty()));
    for c in it: s.chars()
        invariant
            it.seq() == s@,
            segments_view(done@).push(current@) == split_path(it.seq().take(it.index() as int)),
    {
        let ghost before = it.seq().take(it.index() as int);
        let ghost after = it.seq().take(it.index() + 1);
        assert(after.drop_last() =~= before);
        assert(after.last() == c);
        if c == '/' {
            done.push(current);
            current = Vec::new();
            assert(segments_view(done@).push(current@) =~= split_path(before).push(
                Seq::<char>::empty(),
            ));
        } else {
            current.push(c);
            assert(segments_view(done@).push(current@) =~= split_path(before).drop_last().push(
                split_path(before).last().push(c),
            ));
        }
    }
    assert(s@.take(s@.len() as int) =~= s@);
    done.push(current);
    assert(segments_view(done@) =~= split_path(s@));
    done
}

/// Whether two segments are the same.
fn segment_eq(a: &Vec<char>, b: &Vec<char>) -> (r: bool)
    ensures
        r == (a@ == b@),
{
    if a.len() != b.len() {
        return false;
    }
    let mut i: usize = 0;
    while i < a.len()
        invariant
            a.len() == b.len(),
            i <= a.len(),
            forall|j: int| 0 <= j < i ==> a@[j] == b@[j],
        decreases a.len() - i,
    {
        if a[i] != b[i] {
            return false;
        }
        i = i + 1;
    }
    assert(a@ =~= b@);
    true
}

/// Whether one pattern segment accepts one path segment.
pub fn segment_accepts(pattern: &Vec<char>, path: &Vec<char>) -> (r: bool)
    ensures
        r == segment_matches(pattern@, path@),
{
    let n: usize = pattern.len();
    if n >= 2 && pattern[0] == '{' && pattern[n - 1] == '}' {
        path.len() > 0
    } else {
        segment_eq(pattern, path)
    }
}

/// Whether the segments of a pattern accept the segments of a path.
pub fn segments_accept(pattern: &Vec<Vec<char>>, path: &Vec<Vec<char>>) -> (r: bool)
    ensures
        r == segments_match(segments_view(pattern@), segments_view(path@)),
{
    let n: usize = pattern.len();
    let ghost pattern_view = segments_view(pattern@);
    let ghost path_view = segments_view(path@);
    let wildcard: bool = n > 0 && pattern[n - 1].len() == 1 && pattern[n - 1][0] == '*';
    assert(wildcard == (pattern_view.len() > 0 && is_wildcard(pattern_view.last())));
    let fixed: usize = if wildcard {
        n - 1
    } else {
        n
    };
    if wildcard {
        if path.len() < n {
            return false;
        }
    } else {
        if path.len() != n {
            return false;
        }
    }
    let mut i: usize = 0;
    while i < fixed
        invariant
            i <= fixed <= n,
            n == pattern.len(),
            fixed <= path.len(),
            wildcard == (pattern_view.len() > 0 && is_wildcard(pattern_view.last())),
            wildcard ==> fixed == n - 1 && path.len() >= n,
            !wildcard ==> fixed == n && path.len() == n,
            pattern_view == segments_view(pattern@),
            path_view == segments_view(path@),
            forall|j: int| 0 <= j < i ==> segment_matches(#[trigger] pattern_view[j], path_view[j]),
        decreases fixed - i,
    {
        if !segment_accepts(&pattern[i], &path[i]) {
            assert(!segment_matches(pattern_view[i as int], path_view[i as int]));
            return false;
        }
        i = i + 1;
    }
    true
}

/// Whether a pattern accepts a path.
pub fn matches_path(pattern: &str, path: &str) -> (r: bool)
    ensures
        r == path_matches(pattern@, path@),
{
    let pattern_segments = split_segments(pattern);
    let path_segments = split_segments(path);
    segments_accept(&pattern_segments, &path_segments)
}

/// Segments put together again, with a `/` between each two.
pub open spec fn join_path(segments: Seq<Seq<char>>) -> Seq<char>
    decreases segments.len(),
{
    if segments.len() == 0 {
        Seq::empty()
    } else if segments.len() == 1 {
        segments[0]
    } else {
        join_path(segments.drop_last()) + seq!['/'] + segments.last()
    }
}

/// Splitting loses nothing and cuts at every `/`: a path has at least
/// one segment, no segment holds a `/`, and the segments put together
/// again are the path.
pub proof fn lemma_split_path(s: Seq<char>)
    ensures
        split_path(s).len() >= 1,
        forall|i: int|
            0 <= i < split_path(s).len() ==> !(#[trigger] split_path(s)[i]).contains('/'),
        join_path(split_path(s)) == s,
    decreases s.len(),
{
    if s.len() > 0 {
        let init = split_path(s.drop_last());
        let all = split_path(s);
        lemma_split_path(s.drop_last());
        if s.last() == '/' {
            assert(all.drop_last() =~= init);
            assert(join_path(all) =~= s);
        } else {
            let grown = init.last().push(s.last());
            assert forall|i: int| 0 <= i < all.len() implies !(#[trigger] all[i]).contains('/') by {
                if i < all.len() - 1 {
                    assert(all[i] == init[i]);
                } else {
                    if grown.contains('/') {
                        let k = choose|k: int| 0 <= k < grown.len() && grown[k] == '/';
                        assert(init.last()[k] == '/');
                    }
                }
            }
            assert(all.drop_last() =~= init.drop_last());
            if init.len() == 1 {
                assert(join_path(all) =~= s);
            } else {
                assert(join_path(init) == join_path(init.drop_last()) + seq!['/'] + init.last());
                assert(join_path(all) =~= join_path(init).push(s.last()));
                assert(join_path(all) =~= s);
            }
        }
    } else {
        assert(!Seq::<char>::empty().contains('/'));
    }
}

} // verus!
