use vstd::prelude::*;
use vstd::string::*;
use crate::text::{chars_of, find_from, first_match_from, match_at, matches_at, sub_chars};

verus! {

/// Why no owner and repository could be read from a remote URL.
#[derive(Debug, PartialEq, Eq, Structural)]
pub enum OwnerRepoError {
    /// The URL holds neither `github.com:` nor `github.com/`.
    NoPathFound,
    /// The path after the host holds no `/` between owner and repository.
    NoRepoNameFound,
}

impl OwnerRepoError {
    /// The error text shown to the user.
    pub fn message(&self) -> (m: String)
        ensures
            m@ == owner_repo_error_text(*self),
    {
        match self {
            OwnerRepoError::NoPathFound => String::from_str("no_path_found"),
            OwnerRepoError::NoRepoNameFound => String::from_str("no_repo_name_found"),
        }
    }
}

/// The error text of each failure.
pub open spec fn owner_repo_error_text(e: OwnerRepoError) -> Seq<char> {
    match e {
        OwnerRepoError::NoPathFound => "no_path_found"@,
        OwnerRepoError::NoRepoNameFound => "no_repo_name_found"@,
    }
}

/// The piece of `s` that comes after the first occurrence of `sep` and
/// before the next one (or the end): the second field when `s` is split
/// at every occurrence of `sep`. `None` when `sep` does not occur.
pub open spec fn second_field(s: Seq<char>, sep: Seq<char>) -> Option<Seq<char>> {
    match first_match_from(s, sep, 0) {
        None => None,
        Some(i) => {
            let a = i + sep.len();
            let b = match first_match_from(s, sep, a) {
                Some(j) => j,
                None => s.len() as int,
            };
            Some(s.subrange(a, b))
        },
    }
}

/// The repository path of a GitHub remote URL: what follows
/// `github.com:` (SSH form) when the URL holds it, else what follows
/// `github.com/` (HTTPS form).
pub open spec fn github_path(url: Seq<char>) -> Option<Seq<char>> {
    if first_match_from(url, "github.com:"@, 0) is Some {
        second_field(url, "github.com:"@)
    } else {
        second_field(url, "github.com/"@)
    }
}

/// `s` with every trailing `.git` removed.
pub open spec fn trim_git(s: Seq<char>) -> Seq<char>
    decreases s.len(),
{
    if s.len() >= 4 && s.subrange(s.len() - 4, s.len() as int) =~= ".git"@ {
        trim_git(s.subrange(0, s.len() - 4))
    } else {
        s
    }
}

/// Owner and repository named by a remote URL: the trimmed path is cut
/// at its first `/`; the owner is what comes before it, the repository
/// all that comes after it.
pub open spec fn owner_repo_of(url: Seq<char>) -> Result<(Seq<char>, Seq<char>), OwnerRepoError> {
    match github_path(url) {
        None => Err(OwnerRepoError::NoPathFound),
        Some(path) => {
            let t = trim_git(path);
            match first_match_from(t, seq!['/'], 0) {
                None => Err(OwnerRepoError::NoRepoNameFound),
                Some(k) => Ok((t.subrange(0, k), t.subrange(k + 1, t.len() as int))),
            }
        },
    }
}

/// The start and end (in characters) of the second field of `s` split at `sep`.
fn second_field_bounds(s: &Vec<char>, sep: &Vec<char>) -> (r: Option<(usize, usize)>)
    ensures
        match r {
            None => second_field(s@, sep@) is None,
            Some((a, b)) => a <= b <= s@.len() && second_field(s@, sep@) == Some(
                s@.subrange(a as int, b as int),
            ),
        },
{
    let n = s.len();
    match find_from(s, sep, 0) {
        None => None,
        Some(i) => {
            assert(match_at(s@, sep@, i as int));
            assert(i + sep@.len() <= n);
            let a = i + sep.len();
            let b = match find_from(s, sep, a) {
                Some(j) => {
                    assert(match_at(s@, sep@, j as int));
                    j
                },
                None => s.len(),
            };
            Some((a, b))
        },
    }
}

/// Reads owner and repository from the URL of a GitHub remote, in the SSH
/// form (`git@github.com:owner/repo.git`) or the HTTPS form
/// (`https://github.com/owner/repo.git`).
pub fn owner_repo_from_url(url: &str) -> (res: Result<(String, String), OwnerRepoError>)
    ensures
        match owner_repo_of(url@) {
            Ok((owner, repo)) => res matches Ok((o, r)) && o@ == owner && r@ == repo,
            Err(e) => res == Err::<(String, String), OwnerRepoError>(e),
        },
{
    let chars = chars_of(url);
    let ssh = chars_of("github.com:");
    let https = chars_of("github.com/");
    let bounds = match find_from(&chars, &ssh, 0) {
        Some(_) => second_field_bounds(&chars, &ssh),
        None => second_field_bounds(&chars, &https),
    };
    let (a, b) = match bounds {
        None => return Err(OwnerRepoError::NoPathFound),
        Some(ab) => ab,
    };
    let ghost path = url@.subrange(a as int, b as int);
    assert(github_path(url@) == Some(path));
    let git = chars_of(".git");
    proof {
        reveal_strlit(".git");
    }
    let mut e: usize = b;
    while e - a >= 4 && matches_at(&chars, &git, e - 4)
        invariant
            a <= e <= b <= chars@.len(),
            chars@ == url@,
            git@ == ".git"@,
            ".git"@.len() == 4,
            trim_git(path) == trim_git(url@.subrange(a as int, e as int)),
        decreases e,
    {
        let ghost cur = url@.subrange(a as int, e as int);
        assert(cur.subrange(cur.len() - 4, cur.len() as int) =~= url@.subrange(e - 4, e as int));
        assert(cur.subrange(0, cur.len() - 4) =~= url@.subrange(a as int, e - 4));
        e = e - 4;
    }
    let ghost t = url@.subrange(a as int, e as int);
    proof {
        if t.len() >= 4 {
            assert(t.subrange(t.len() - 4, t.len() as int) =~= url@.subrange(e - 4, e as int));
        }
    }
    assert(trim_git(path) == t);
    let trimmed = sub_chars(&chars, a, e);
    let slash = chars_of("/");
    proof {
        reveal_strlit("/");
        assert(slash@ =~= seq!['/']);
    }
    match find_from(&trimmed, &slash, 0) {
        None => Err(OwnerRepoError::NoRepoNameFound),
        Some(k) => {
            assert(match_at(trimmed@, slash@, k as int));
            let owner = String::from_str(url.substring_char(a, a + k));
            let repo = String::from_str(url.substring_char(a + k + 1, e));
            assert(owner@ =~= t.subrange(0, k as int));
            assert(repo@ =~= t.subrange(k + 1, t.len() as int));
            Ok((owner, repo))
        },
    }
}

} // verus!
