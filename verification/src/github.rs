//! GitHub repository URLs: their owner and name, and the canonical form that
//! credential boundaries are compared in.

use crate::json::push_chars;
use crate::text::{chars_of, contains_char, ends_with_chars, slice_chars, starts_with_chars, string_from_chars};
use vstd::prelude::*;

verus! {

/// The URL prefix of GitHub repositories.
pub open spec fn github_prefix() -> Seq<char> {
    "https://github.com/"@
}

/// The suffix that Git remotes may carry.
pub open spec fn git_suffix() -> Seq<char> {
    ".git"@
}

/// `s` without its trailing `/` characters (`trim_end_matches('/')`).
pub open spec fn strip_trailing_slashes(s: Seq<char>) -> Seq<char>
    decreases s.len(),
{
    if s.len() > 0 && s.last() == '/' {
        strip_trailing_slashes(s.drop_last())
    } else {
        s
    }
}

/// `k` is the position of the one `/` in `t`.
pub open spec fn is_only_slash_at(t: Seq<char>, k: int) -> bool {
    &&& 0 <= k < t.len()
    &&& t[k] == '/'
    &&& forall|j: int| 0 <= j < t.len() && j != k ==> t[j] != '/'
}

/// `name` without one trailing `.git`.
pub open spec fn without_git_suffix(name: Seq<char>) -> Seq<char> {
    let g = git_suffix();
    if g.len() <= name.len() && name.subrange(name.len() - g.len(), name.len() as int) == g {
        name.subrange(0, name.len() - g.len())
    } else {
        name
    }
}

/// The owner and repository of a GitHub repository URL: the URL starts with
/// the GitHub prefix; the rest holds no `?` or `#`; without trailing slashes
/// it is `owner/name` with exactly one `/`; the repository is the name
/// without one `.git` suffix; owner and repository are non-empty.
pub open spec fn github_repository_of(url: Seq<char>) -> Option<(Seq<char>, Seq<char>)> {
    let p = github_prefix();
    if p.len() <= url.len() && url.subrange(0, p.len() as int) == p {
        let rest = url.subrange(p.len() as int, url.len() as int);
        if rest.contains('?') || rest.contains('#') {
            None
        } else {
            let t = strip_trailing_slashes(rest);
            if exists|k: int| is_only_slash_at(t, k) {
                let k = choose|k: int| is_only_slash_at(t, k);
                let owner = t.subrange(0, k);
                let repo = without_git_suffix(t.subrange(k + 1, t.len() as int));
                if owner.len() > 0 && repo.len() > 0 {
                    Some((owner, repo))
                } else {
                    None
                }
            } else {
                None
            }
        }
    } else {
        None
    }
}

/// The canonical URL `https://github.com/owner/repo` of a repository URL.
pub open spec fn canonical_github_url_of(url: Seq<char>) -> Option<Seq<char>> {
    match github_repository_of(url) {
        Some((owner, repo)) => Some(github_prefix() + owner + seq!['/'] + repo),
        None => None,
    }
}

proof fn lemma_strip_trailing(s: Seq<char>, e: int)
    requires
        0 <= e <= s.len(),
        forall|j: int| e <= j < s.len() ==> s[j] == '/',
        e == 0 || s[e - 1] != '/',
    ensures
        strip_trailing_slashes(s) == s.subrange(0, e),
    decreases s.len(),
{
    if s.len() > e {
        assert(s.last() == '/');
        lemma_strip_trailing(s.drop_last(), e);
        assert(s.drop_last().subrange(0, e) =~= s.subrange(0, e));
    } else {
        assert(s.subrange(0, e) =~= s);
        if s.len() > 0 {
            assert(s.last() != '/');
        }
    }
}

/// The owner and repository named by a GitHub repository URL, if it is one.
pub fn github_repository(url: &str) -> (out: Option<(String, String)>)
    ensures
        match github_repository_of(url@) {
            Some((owner, repo)) => out matches Some(pair) && pair.0@ == owner && pair.1@ == repo,
            None => out is None,
        },
{
    let u = chars_of(url);
    let p = chars_of("https://github.com/");
    if !starts_with_chars(u.as_slice(), p.as_slice()) {
        return None;
    }
    let rest = slice_chars(u.as_slice(), p.len(), u.len());
    if contains_char(rest.as_slice(), '?') || contains_char(rest.as_slice(), '#') {
        return None;
    }
    let mut e: usize = rest.len();
    while e > 0 && rest[e - 1] == '/'
        invariant
            e <= rest@.len(),
            forall|j: int| e <= j < rest@.len() ==> rest@[j] == '/',
        decreases e,
    {
        e = e - 1;
    }
    proof {
        lemma_strip_trailing(rest@, e as int);
    }
    let t = slice_chars(rest.as_slice(), 0, e);
    let ghost tv = strip_trailing_slashes(rest@);
    assert(t@ == tv);
    let mut first: usize = 0;
    let mut found: bool = false;
    let mut i: usize = 0;
    #[verifier::loop_isolation(false)]
    while i < t.len()
        invariant
            i <= t@.len(),
            !found ==> forall|j: int| 0 <= j < i ==> t@[j] != '/',
            found ==> first < i && t@[first as int] == '/' && forall|j: int|
                0 <= j < i && j != first ==> t@[j] != '/',
        decreases t.len() - i,
    {
        if t[i] == '/' {
            if found {
                proof {
                    assert forall|k: int| !is_only_slash_at(t@, k) by {
                        if is_only_slash_at(t@, k) {
                            if k == first {
                                assert(t@[i as int] == '/');
                            } else {
                                assert(t@[first as int] == '/');
                            }
                        }
                    }
                }
                return None;
            }
            found = true;
            first = i;
        }
        i = i + 1;
    }
    if !found {
        assert forall|k: int| !is_only_slash_at(t@, k) by {
            if 0 <= k < t@.len() {
                assert(t@[k] != '/');
            }
        }
        return None;
    }
    assert(is_only_slash_at(t@, first as int));
    proof {
        let k = choose|k: int| is_only_slash_at(t@, k);
        assert(k == first) by {
            if k != first {
                assert(t@[first as int] == '/');
            }
        }
    }
    let owner = slice_chars(t.as_slice(), 0, first);
    let name = slice_chars(t.as_slice(), first + 1, t.len());
    let g = chars_of(".git");
    let repo = if ends_with_chars(name.as_slice(), g.as_slice()) {
        slice_chars(name.as_slice(), 0, name.len() - g.len())
    } else {
        name
    };
    if owner.len() == 0 || repo.len() == 0 {
        return None;
    }
    Some((string_from_chars(owner.as_slice()), string_from_chars(repo.as_slice())))
}

/// The canonical form `https://github.com/owner/repo` of a GitHub repository
/// URL.
pub fn canonical_github_url(url: &str) -> (out: Option<String>)
    ensures
        match canonical_github_url_of(url@) {
            Some(c) => out matches Some(s) && s@ == c,
            None => out is None,
        },
{
    match github_repository(url) {
        Some((owner, repo)) => {
            let mut v: Vec<char> = chars_of("https://github.com/");
            let o = chars_of(owner.as_str());
            push_chars(&mut v, o.as_slice());
            v.push('/');
            let r = chars_of(repo.as_str());
            push_chars(&mut v, r.as_slice());
            Some(string_from_chars(v.as_slice()))
        },
        None => None,
    }
}

} // verus!

verus! {

/// Law: a canonical repository URL is its own canonical form, unless the
/// repository name itself still ends in `.git` (a remote named `x.git.git`
/// loses one suffix per reading).
pub proof fn lemma_canonical_url_is_stable(url: Seq<char>)
    requires
        canonical_github_url_of(url) is Some,
        !({
            let c = canonical_github_url_of(url)->0;
            git_suffix().len() <= c.len() && c.subrange(c.len() - git_suffix().len(), c.len() as int)
                == git_suffix()
        }),
    ensures
        canonical_github_url_of(canonical_github_url_of(url)->0) == canonical_github_url_of(url),
{
    let p = github_prefix();
    let rest0 = url.subrange(p.len() as int, url.len() as int);
    let t0 = strip_trailing_slashes(rest0);
    let k0 = choose|k: int| is_only_slash_at(t0, k);
    let owner = t0.subrange(0, k0);
    let name = t0.subrange(k0 + 1, t0.len() as int);
    let repo = without_git_suffix(name);
    let c = p + owner + seq!['/'] + repo;
    assert(c == canonical_github_url_of(url)->0);
    lemma_strip_prefix_of(rest0);
    // Every character of owner and repo comes from t0, a prefix of rest0.
    assert forall|j: int| 0 <= j < owner.len() implies owner[j] != '/' && owner[j] != '?'
        && owner[j] != '#' by {
        assert(owner[j] == t0[j]);
        assert(t0[j] == rest0[j]);
        assert(rest0.contains(rest0[j]));
    }
    assert(repo.len() <= name.len());
    assert forall|j: int| 0 <= j < repo.len() implies repo[j] != '/' && repo[j] != '?' && repo[j]
        != '#' by {
        assert(repo[j] == name[j]);
        assert(name[j] == t0[k0 + 1 + j]);
        assert(t0[k0 + 1 + j] == rest0[k0 + 1 + j]);
        assert(rest0.contains(rest0[k0 + 1 + j]));
    }
    // Reading `c` again.
    assert(c.subrange(0, p.len() as int) =~= p);
    let rest = c.subrange(p.len() as int, c.len() as int);
    assert(rest =~= owner + seq!['/'] + repo);
    assert(!rest.contains('?') && !rest.contains('#')) by {
        if rest.contains('?') || rest.contains('#') {
            let j = choose|j: int| 0 <= j < rest.len() && (rest[j] == '?' || rest[j] == '#');
            if j < owner.len() {
                assert(rest[j] == owner[j]);
            } else if j > owner.len() {
                assert(rest[j] == repo[j - owner.len() - 1]);
            }
        }
    }
    assert(rest.last() == repo[repo.len() - 1]);
    lemma_strip_trailing(rest, rest.len() as int);
    assert(rest.subrange(0, rest.len() as int) =~= rest);
    let t = strip_trailing_slashes(rest);
    assert(t == rest);
    let k = owner.len() as int;
    assert(is_only_slash_at(t, k)) by {
        assert forall|j: int| 0 <= j < t.len() && j != k implies t[j] != '/' by {
            if j < k {
                assert(t[j] == owner[j]);
            } else {
                assert(t[j] == repo[j - k - 1]);
            }
        }
    }
    let k2 = choose|k2: int| is_only_slash_at(t, k2);
    assert(k2 == k);
    assert(t.subrange(0, k) =~= owner);
    assert(t.subrange(k + 1, t.len() as int) =~= repo);
    assert(without_git_suffix(repo) == repo) by {
        let g = git_suffix();
        if g.len() <= repo.len() && repo.subrange(repo.len() - g.len(), repo.len() as int) == g {
            assert(c.subrange(c.len() - g.len(), c.len() as int) =~= repo.subrange(
                repo.len() - g.len(),
                repo.len() as int,
            ));
        }
    }
}

proof fn lemma_strip_prefix_of(s: Seq<char>)
    ensures
        strip_trailing_slashes(s).len() <= s.len(),
        forall|j: int|
            0 <= j < strip_trailing_slashes(s).len() ==> #[trigger] strip_trailing_slashes(s)[j]
                == s[j],
    decreases s.len(),
{
    if s.len() > 0 && s.last() == '/' {
        lemma_strip_prefix_of(s.drop_last());
    }
}

/// Law: the URL `https://github.com/{owner}/{repo}`, with or without `.git`
/// after the repository, names exactly that owner and repository, and its
/// canonical form is the URL without `.git`; for an owner and a repository
/// name that are non-empty and hold no `/`, `?` or `#`, the name not itself
/// ending in `.git`.
pub proof fn lemma_github_url_names_its_repository(owner: Seq<char>, repo: Seq<char>, with_git: bool)
    requires
        owner.len() > 0,
        repo.len() > 0,
        forall|i: int|
            0 <= i < owner.len() ==> #[trigger] owner[i] != '/' && owner[i] != '?' && owner[i] != '#',
        forall|i: int|
            0 <= i < repo.len() ==> #[trigger] repo[i] != '/' && repo[i] != '?' && repo[i] != '#',
        !(4 <= repo.len() && repo.subrange(repo.len() - 4, repo.len() as int) == git_suffix()),
    ensures
        github_repository_of(
            github_prefix() + owner + seq!['/'] + repo + (if with_git {
                git_suffix()
            } else {
                Seq::<char>::empty()
            }),
        ) == Some((owner, repo)),
        canonical_github_url_of(
            github_prefix() + owner + seq!['/'] + repo + (if with_git {
                git_suffix()
            } else {
                Seq::<char>::empty()
            }),
        ) == Some(github_prefix() + owner + seq!['/'] + repo),
{
    reveal_strlit(".git");
    let g = if with_git {
        git_suffix()
    } else {
        Seq::<char>::empty()
    };
    assert(g.len() == 0 || g.len() == 4);
    let n = repo + g;
    let p = github_prefix();
    let url = p + owner + seq!['/'] + repo + g;
    let rest = owner + seq!['/'] + n;
    assert(url =~= p + rest);
    assert(url.subrange(0, p.len() as int) =~= p);
    assert(url.subrange(p.len() as int, url.len() as int) =~= rest);
    let k = owner.len() as int;
    assert forall|i: int| 0 <= i < rest.len() && i != k implies #[trigger] rest[i] != '/' && rest[i] != '?'
        && rest[i] != '#' by {
        if i < k {
            assert(rest[i] == owner[i]);
        } else if i < k + 1 + repo.len() {
            assert(rest[i] == repo[i - k - 1]);
        } else {
            assert(rest[i] == g[i - k - 1 - repo.len()]);
        }
    }
    assert(rest[k] == '/');
    assert(!rest.contains('?'));
    assert(!rest.contains('#'));
    if with_git {
        assert(rest.last() == 't');
    } else {
        assert(rest.last() == repo.last());
    }
    assert(strip_trailing_slashes(rest) == rest);
    assert(is_only_slash_at(rest, k));
    assert forall|k2: int| is_only_slash_at(rest, k2) implies k2 == k by {
        if k2 != k {
            assert(rest[k] == '/');
        }
    }
    let kc = choose|k2: int| is_only_slash_at(rest, k2);
    assert(kc == k);
    assert(rest.subrange(0, k) =~= owner);
    assert(rest.subrange(k + 1, rest.len() as int) =~= n);
    if with_git {
        assert(n.subrange(n.len() - 4, n.len() as int) =~= g);
        assert(n.subrange(0, n.len() - 4) =~= repo);
    } else {
        assert(n =~= repo);
    }
}

} // verus!
