//! Redirects that normalise the trailing slash of a request path.

use vstd::prelude::*;
use crate::text::{chars_of, str_eq, string_of_chars, slice_chars};

verus! {

broadcast use vstd::string::group_string_axioms;

/// How request paths with or without a trailing slash are treated.
#[derive(Debug, Clone, Copy, PartialEq, Eq, Structural)]
pub enum TrailingSlash {
    /// Paths are served as they come.
    Ignore,
    /// A path ending in `/` is redirected to the path without it.
    Strip,
    /// A path not ending in `/` is redirected to the path with it.
    Add,
}

/// A permanent redirect.
#[derive(Debug, Clone)]
pub struct Redirect {
    pub status: u16,
    pub location: String,
}

/// What the middleware does with a request.
#[derive(Debug, Clone)]
pub enum SlashAction {
    /// Hand the request on.
    Continue,
    /// Answer with a redirect instead.
    Redirect(Redirect),
}

/// `s` without its trailing `/` characters.
pub open spec fn trim_trailing_slashes(s: Seq<char>) -> Seq<char>
    decreases s.len(),
{
    if s.len() > 0 && s.last() == '/' {
        trim_trailing_slashes(s.drop_last())
    } else {
        s
    }
}

/// Whether `s` ends in `/`.
pub open spec fn ends_with_slash(s: Seq<char>) -> bool {
    s.len() > 0 && s.last() == '/'
}

/// The location of a redirect to `new_path` that keeps the query.
pub open spec fn location_of(query: Option<Seq<char>>, new_path: Seq<char>) -> Seq<char> {
    match query {
        Some(q) => new_path + "?"@ + q,
        None => new_path,
    }
}

/// The path that the middleware redirects to, if any.
pub open spec fn redirect_target(mode: TrailingSlash, path: Seq<char>) -> Option<Seq<char>> {
    match mode {
        TrailingSlash::Ignore => None,
        TrailingSlash::Strip => if path != "/"@ && ends_with_slash(path) {
            Some(trim_trailing_slashes(path))
        } else {
            None
        },
        TrailingSlash::Add => if path != "/"@ && !ends_with_slash(path) {
            Some(path + "/"@)
        } else {
            None
        },
    }
}

/// Trimming leaves no trailing slash.
pub proof fn lemma_trimmed_has_no_trailing_slash(s: Seq<char>)
    ensures
        !ends_with_slash(trim_trailing_slashes(s)),
    decreases s.len(),
{
    if s.len() > 0 && s.last() == '/' {
        lemma_trimmed_has_no_trailing_slash(s.drop_last());
    }
}

/// One redirect suffices: the path that the middleware redirects to is
/// served without a further redirect.
pub proof fn lemma_redirect_target_is_stable(mode: TrailingSlash, path: Seq<char>)
    ensures
        redirect_target(mode, path) matches Some(t) ==> redirect_target(mode, t) is None,
{
    lemma_trimmed_has_no_trailing_slash(path);
    reveal_strlit("/");
    match mode {
        TrailingSlash::Add => {
            let t = path + "/"@;
            assert(t.last() == '/');
        },
        _ => {},
    }
}

/// Trimming removes exactly the trailing `/` characters: what is left is a
/// prefix of `s` not ending in `/`, and everything removed is `/`.
pub proof fn lemma_trim_removes_only_slashes(s: Seq<char>)
    ensures
        trim_trailing_slashes(s).len() <= s.len(),
        s.subrange(0, trim_trailing_slashes(s).len() as int) == trim_trailing_slashes(s),
        forall|i: int| trim_trailing_slashes(s).len() <= i < s.len() ==> #[trigger] s[i] == '/',
        !ends_with_slash(trim_trailing_slashes(s)),
    decreases s.len(),
{
    lemma_trimmed_has_no_trailing_slash(s);
    if s.len() > 0 && s.last() == '/' {
        let init = s.drop_last();
        lemma_trim_removes_only_slashes(init);
        let t = trim_trailing_slashes(init);
        assert(s.subrange(0, t.len() as int) =~= init.subrange(0, t.len() as int));
        assert forall|i: int| t.len() <= i < s.len() implies #[trigger] s[i] == '/' by {
            if i < init.len() {
                assert(s[i] == init[i]);
            }
        }
    } else {
        assert(s.subrange(0, s.len() as int) =~= s);
    }
}

/// Under `Strip`, a redirect goes to the path without its trailing slashes;
/// under `Add`, to the path with one slash added; the root path `/` and
/// paths already in the wanted form are never redirected, and `Ignore`
/// never redirects.
pub proof fn lemma_redirect_targets(mode: TrailingSlash, path: Seq<char>)
    ensures
        mode == TrailingSlash::Ignore ==> redirect_target(mode, path) is None,
        path == "/"@ ==> redirect_target(mode, path) is None,
        mode == TrailingSlash::Strip ==> (redirect_target(mode, path) is Some <==> (path != "/"@
            && path.len() > 0 && path.last() == '/')),
        mode == TrailingSlash::Add ==> (redirect_target(mode, path) is Some <==> (path != "/"@
            && !(path.len() > 0 && path.last() == '/'))),
        mode == TrailingSlash::Strip ==> (redirect_target(mode, path) matches Some(t) ==> t.len()
            < path.len() && path.subrange(0, t.len() as int) == t && (forall|i: int|
            t.len() <= i < path.len() ==> #[trigger] path[i] == '/')),
        mode == TrailingSlash::Add ==> (redirect_target(mode, path) matches Some(t) ==> t.len()
            == path.len() + 1 && t.subrange(0, path.len() as int) == path && t.last() == '/'),
{
    lemma_trim_removes_only_slashes(path);
    reveal_strlit("/");
    if mode == TrailingSlash::Add && redirect_target(mode, path) is Some {
        let t = path + "/"@;
        assert(t.subrange(0, path.len() as int) =~= path);
    }
}

/// A 301 redirect to `new_path`, keeping the original query.
pub fn redirect_to(query: Option<&str>, new_path: &str) -> (r: Redirect)
    ensures
        r.status == 301,
        r.location@ == location_of(
            match query {
                Some(q) => Some(q@),
                None => None,
            },
            new_path@,
        ),
{
    let location = match query {
        Some(q) => String::from_str(new_path).concat("?").concat(q),
        None => String::from_str(new_path),
    };
    Redirect { status: 301, location }
}

/// `s` without its trailing `/` characters.
pub fn trim_slashes(s: &str) -> (r: String)
    ensures
        r@ == trim_trailing_slashes(s@),
{
    let cs = chars_of(s);
    let mut n: usize = cs.len();
    assert(cs@.take(n as int) =~= cs@);
    while n > 0 && cs[n - 1] == '/'
        invariant
            n <= cs@.len(),
            trim_trailing_slashes(cs@) == trim_trailing_slashes(cs@.take(n as int)),
        decreases n,
    {
        assert(cs@.take(n as int).drop_last() =~= cs@.take(n - 1));
        n = n - 1;
    }
    let t = slice_chars(&cs, 0, n);
    assert(cs@.subrange(0, n as int) =~= cs@.take(n as int));
    string_of_chars(&t)
}

/// What the trailing-slash middleware does with a request for `path` with
/// query `query` under `mode`.
pub fn trailing_slash_action(mode: TrailingSlash, path: &str, query: Option<&str>) -> (r:
    SlashAction)
    ensures
        match redirect_target(mode, path@) {
            Some(target) => r matches SlashAction::Redirect(d) && d.status == 301 && d.location@
                == location_of(
                match query {
                    Some(q) => Some(q@),
                    None => None,
                },
                target,
            ),
            None => r is Continue,
        },
{
    let cs = chars_of(path);
    let n = cs.len();
    let ends = n > 0 && cs[n - 1] == '/';
    match mode {
        TrailingSlash::Ignore => SlashAction::Continue,
        TrailingSlash::Strip => {
            if !str_eq(path, "/") && ends {
                let target = trim_slashes(path);
                SlashAction::Redirect(redirect_to(query, target.as_str()))
            } else {
                SlashAction::Continue
            }
        },
        TrailingSlash::Add => {
            if !str_eq(path, "/") && !ends {
                let target = String::from_str(path).concat("/");
                SlashAction::Redirect(redirect_to(query, target.as_str()))
            } else {
                SlashAction::Continue
            }
        },
    }
}

} // verus!
