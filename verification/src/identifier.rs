//! Deriving the repository identifier from a canonical URL.
//!
//! The identifier is the last segment of the URL's path, a trailing slash
//! set aside. It is the key of the checkout in the cache and the name of its
//! directory.

use vstd::prelude::*;
use crate::error::Error;
use crate::resolver::CanonicalUrl;

verus! {

/// The pieces of `s` between its slashes, in order. Reading `s` from the
/// left, a slash opens a new piece and any other character extends the last
/// one. There is always at least one piece, and a piece may be empty.
pub open spec fn split_on_slash(s: Seq<char>) -> Seq<Seq<char>>
    decreases s.len(),
{
    if s.len() == 0 {
        seq![Seq::<char>::empty()]
    } else {
        let before = split_on_slash(s.drop_last());
        if s.last() == '/' {
            before.push(Seq::<char>::empty())
        } else {
            before.drop_last().push(before.last().push(s.last()))
        }
    }
}

/// The segments of a URL path: the pieces between the slashes of what
/// follows its leading slash. A path without a leading slash has none.
pub open spec fn path_segments(path: Seq<char>) -> Option<Seq<Seq<char>>> {
    if path.len() > 0 && path[0] == '/' {
        Some(split_on_slash(path.skip(1)))
    } else {
        None
    }
}

/// `segments` without its last entry where that entry is empty: a trailing
/// slash set aside.
pub open spec fn without_trailing_empty(segments: Seq<Seq<char>>) -> Seq<Seq<char>> {
    if segments.len() > 0 && segments.last().len() == 0 {
        segments.drop_last()
    } else {
        segments
    }
}

/// The repository identifier of a URL path: its last segment once a single
/// trailing empty segment is set aside, unchanged. A path with no segment
/// left has none.
pub open spec fn repo_name(path: Seq<char>) -> Result<Seq<char>, Error> {
    match path_segments(path) {
        Some(segments) => {
            let kept = without_trailing_empty(segments);
            if kept.len() == 0 {
                Err(Error::EmptyPath)
            } else {
                Ok(kept.last())
            }
        },
        None => Err(Error::EmptyPath),
    }
}

/// `split_on_slash` always yields at least one piece.
pub proof fn lemma_split_nonempty(s: Seq<char>)
    ensures
        split_on_slash(s).len() >= 1,
    decreases s.len(),
{
    if s.len() > 0 {
        lemma_split_nonempty(s.drop_last());
    }
}

/// A string without a slash is a single piece.
pub proof fn lemma_split_without_slash(s: Seq<char>)
    requires
        !s.contains('/'),
    ensures
        split_on_slash(s) == seq![s],
    decreases s.len(),
{
    if s.len() > 0 {
        let init = s.drop_last();
        assert forall|i: int| 0 <= i < init.len() implies init[i] != '/' by {
            assert(s[i] == init[i]);
            assert(s.contains(s[i]));
        }
        assert(!init.contains('/'));
        assert(s.contains(s.last()));
        lemma_split_without_slash(init);
        assert(seq![init].drop_last().push(init.push(s.last())) =~= seq![init.push(s.last())]);
        assert(init.push(s.last()) =~= s);
    } else {
        assert(s =~= Seq::<char>::empty());
    }
}

/// A slash and a string without a slash add one piece, that string, to the
/// pieces of what stands before them.
pub proof fn lemma_split_append_segment(s: Seq<char>, name: Seq<char>)
    requires
        !name.contains('/'),
    ensures
        split_on_slash(s + seq!['/'] + name) == split_on_slash(s).push(name),
    decreases name.len(),
{
    let whole = s + seq!['/'] + name;
    if name.len() == 0 {
        assert(whole.drop_last() =~= s);
        assert(name =~= Seq::<char>::empty());
    } else {
        let init = name.drop_last();
        assert forall|i: int| 0 <= i < init.len() implies init[i] != '/' by {
            assert(name[i] == init[i]);
            assert(name.contains(name[i]));
        }
        assert(!init.contains('/'));
        assert(name.contains(name.last()));
        lemma_split_append_segment(s, init);
        assert(whole.drop_last() =~= s + seq!['/'] + init);
        assert(whole.last() == name.last());
        assert(init.push(name.last()) =~= name);
        assert(split_on_slash(s).push(init).drop_last() =~= split_on_slash(s));
    }
}

/// The identifier is what follows the last slash of the path, or what
/// stands between the last two where the path ends in one: a path made of
/// `prefix`, a slash and a name without a slash has that name as its
/// identifier, with or without a slash after it.
pub proof fn lemma_repo_name_is_last_component(prefix: Seq<char>, name: Seq<char>)
    requires
        prefix.len() == 0 || prefix[0] == '/',
        name.len() > 0,
        !name.contains('/'),
    ensures
        repo_name(prefix + seq!['/'] + name) == Ok::<Seq<char>, Error>(name),
        repo_name(prefix + seq!['/'] + name + seq!['/']) == Ok::<Seq<char>, Error>(name),
{
    let path = prefix + seq!['/'] + name;
    let closed = path + seq!['/'];
    let empty = Seq::<char>::empty();
    assert(!empty.contains('/'));
    if prefix.len() == 0 {
        assert(path.skip(1) =~= name);
        lemma_split_without_slash(name);
        assert(closed.skip(1) =~= name + seq!['/'] + empty);
        lemma_split_append_segment(name, empty);
    } else {
        let rest = prefix.skip(1);
        assert(path.skip(1) =~= rest + seq!['/'] + name);
        lemma_split_append_segment(rest, name);
        assert(closed.skip(1) =~= (rest + seq!['/'] + name) + seq!['/'] + empty);
        lemma_split_append_segment(rest + seq!['/'] + name, empty);
    }
}

/// A trailing slash does not change the identifier: a path that does not
/// end in a slash has the same identifier with one added.
pub proof fn lemma_trailing_slash_ignored(path: Seq<char>)
    requires
        path.len() > 0,
        path.last() != '/',
    ensures
        repo_name(path.push('/')) == repo_name(path),
{
    let closed = path.push('/');
    if path[0] == '/' {
        let rest = path.skip(1);
        assert(closed.skip(1) =~= rest.push('/'));
        assert(rest.push('/').drop_last() =~= rest);
        assert(rest.len() > 0);
        assert(rest.last() == path.last());
        lemma_split_nonempty(rest.drop_last());
        assert(split_on_slash(rest.push('/')).drop_last() =~= split_on_slash(rest));
    }
}

/// A string that splits into a single piece has no slash in it, and the
/// piece is the string.
pub proof fn lemma_single_piece_is_whole(s: Seq<char>)
    requires
        split_on_slash(s).len() == 1,
    ensures
        split_on_slash(s) == seq![s],
    decreases s.len(),
{
    if s.len() > 0 {
        let init = s.drop_last();
        lemma_split_nonempty(init);
        lemma_single_piece_is_whole(init);
        assert(seq![init].drop_last().push(init.push(s.last())) =~= seq![init.push(s.last())]);
        assert(init.push(s.last()) =~= s);
    } else {
        assert(s =~= Seq::<char>::empty());
    }
}

/// A path has an identifier exactly where it has a leading slash and
/// something after it.
pub proof fn lemma_repo_name_defined(path: Seq<char>)
    ensures
        repo_name(path) is Ok <==> path.len() >= 2 && path[0] == '/',
        repo_name(path) is Err ==> repo_name(path) == Err::<Seq<char>, Error>(Error::EmptyPath),
{
    if path.len() > 0 && path[0] == '/' {
        let rest = path.skip(1);
        lemma_split_nonempty(rest);
        if split_on_slash(rest).len() == 1 {
            lemma_single_piece_is_whole(rest);
        }
    }
}

/// How far the path has been read once `i` of its characters have gone by:
/// its leading slash is read from the start.
spec fn read_up_to(i: usize) -> int {
    if i == 0 {
        1
    } else {
        i as int
    }
}

/// The repository identifier of a canonical URL: the last segment of its
/// path, a trailing slash set aside, with no change of case or characters.
///
/// Fails with `EmptyPath` where the URL has no path segment left: where its
/// path has no leading slash, or nothing after it, as the path of a bare host
/// has.
pub fn get_repo_name_from_url(parsed_url: &CanonicalUrl) -> (r: Result<String, Error>)
    ensures
        r matches Ok(name) ==> repo_name(parsed_url@.path) == Ok::<Seq<char>, Error>(name@),
        r matches Err(e) ==> repo_name(parsed_url@.path) == Err::<Seq<char>, Error>(e),
        r is Ok <==> parsed_url@.path.len() >= 2 && parsed_url@.path[0] == '/',
{
    let path = parsed_url.path.as_str();
    let n = path.unicode_len();
    if n == 0 || path.get_char(0) != '/' {
        return Err(Error::EmptyPath);
    }
    // `start` is where the last segment read so far begins, and `before`
    // where the one in front of it begins, if there is one.
    let mut several = false;
    let mut before: usize = 1;
    let mut start: usize = 1;
    let mut i: usize = 0;
    assert(path@.subrange(1, 1) =~= Seq::<char>::empty());
    for c in chars: path.chars()
        invariant
            chars.seq() == path@,
            n == path@.len(),
            i == chars.index(),
            1 <= before <= start <= read_up_to(i) <= n,
            several <==> split_on_slash(path@.subrange(1, read_up_to(i))).len() >= 2,
            split_on_slash(path@.subrange(1, read_up_to(i))).len() >= 1,
            split_on_slash(path@.subrange(1, read_up_to(i))).last() == path@.subrange(
                start as int,
                read_up_to(i),
            ),
            several ==> before < start && split_on_slash(
                path@.subrange(1, read_up_to(i)),
            )[split_on_slash(path@.subrange(1, read_up_to(i))).len() - 2] == path@.subrange(
                before as int,
                start - 1,
            ),
    {
        if i > 0 {
            proof {
                let read = path@.subrange(1, i as int);
                let next = path@.subrange(1, i + 1);
                assert(next.drop_last() =~= read);
                assert(next.last() == c);
                if c == '/' {
                    assert(path@.subrange(i + 1, i + 1) =~= Seq::<char>::empty());
                } else {
                    assert(path@.subrange(start as int, i as int).push(c) =~= path@.subrange(
                        start as int,
                        i + 1,
                    ));
                }
            }
            if c == '/' {
                several = true;
                before = start;
                start = i + 1;
            }
        }
        i = i + 1;
    }
    proof {
        assert(path@.subrange(1, n as int) =~= path@.skip(1));
        lemma_repo_name_defined(path@);
    }
    if start < n {
        Ok(path.substring_char(start, n).to_owned())
    } else if several {
        Ok(path.substring_char(before, start - 1).to_owned())
    } else {
        Err(Error::EmptyPath)
    }
}

} // verus!
