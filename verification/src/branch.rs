use vstd::prelude::*;
use vstd::string::*;
use crate::pr::{GSWRError, PRResult, PRStatus};
use crate::text::{chars_of, same_chars};

verus! {

/// A local branch as the switcher lists it.
#[derive(Debug)]
pub struct BranchInfo {
    pub name: String,
    /// The branch is checked out (HEAD points at it).
    pub is_current: bool,
    /// The branch bears one of the usual names of a main line.
    pub is_main: bool,
    /// Time of the last commit, in seconds since the Unix epoch.
    pub last_commit_date: Option<i64>,
    /// Summary line of the last commit.
    pub last_commit_msg: Option<String>,
    pub pr: PRResult,
}

/// The names under which a repository's main line is protected:
/// `main`, `master`, `develop` and `trunk`.
pub open spec fn is_main_name(name: Seq<char>) -> bool {
    ||| name == "main"@
    ||| name == "master"@
    ||| name == "develop"@
    ||| name == "trunk"@
}

/// Whether `name` is one of the protected main-line names.
pub fn is_main_branch_name(name: &str) -> (r: bool)
    ensures
        r == is_main_name(name@),
{
    let n = chars_of(name);
    let main = chars_of("main");
    let master = chars_of("master");
    let develop = chars_of("develop");
    let trunk = chars_of("trunk");
    same_chars(&n, &main) || same_chars(&n, &master) || same_chars(&n, &develop) || same_chars(
        &n,
        &trunk,
    )
}

impl BranchInfo {
    /// A freshly listed branch: whether it is a main line follows from its
    /// name, and its pull request is not known yet.
    pub fn new(
        name: String,
        is_current: bool,
        last_commit_date: Option<i64>,
        last_commit_msg: Option<String>,
    ) -> (b: BranchInfo)
        ensures
            b.name == name,
            b.is_current == is_current,
            b.is_main == is_main_name(name@),
            b.last_commit_date == last_commit_date,
            b.last_commit_msg == last_commit_msg,
            b.pr == Ok::<Option<crate::pr::PR>, GSWRError>(None),
    {
        let is_main = is_main_branch_name(name.as_str());
        BranchInfo { name, is_current, is_main, last_commit_date, last_commit_msg, pr: Ok(None) }
    }
}

/// Why a branch may not be deleted.
#[derive(Debug, PartialEq, Eq, Structural)]
pub enum DeleteError {
    MainBranch,
    CurrentBranch,
    OpenedPr,
    NoLinkedPr,
    PrLookupFailed,
    PrPending,
}

/// The error text of each refusal.
pub open spec fn delete_error_text(e: DeleteError) -> Seq<char> {
    match e {
        DeleteError::MainBranch => "cannot delete main branch"@,
        DeleteError::CurrentBranch => "cannot delete current branch"@,
        DeleteError::OpenedPr => "cannot delete branch linked to an opened PR"@,
        DeleteError::NoLinkedPr => "cannot delete branch not linked to a PR"@,
        DeleteError::PrLookupFailed => "cannot delete branch with an error on a PR"@,
        DeleteError::PrPending => "cannot delete branch while its PR is still loading"@,
    }
}

impl DeleteError {
    /// The error text shown to the user.
    pub fn message(&self) -> (m: String)
        ensures
            m@ == delete_error_text(*self),
    {
        match self {
            DeleteError::MainBranch => String::from_str("cannot delete main branch"),
            DeleteError::CurrentBranch => String::from_str("cannot delete current branch"),
            DeleteError::OpenedPr => String::from_str("cannot delete branch linked to an opened PR"),
            DeleteError::NoLinkedPr => String::from_str("cannot delete branch not linked to a PR"),
            DeleteError::PrLookupFailed => String::from_str(
                "cannot delete branch with an error on a PR",
            ),
            DeleteError::PrPending => String::from_str(
                "cannot delete branch while its PR is still loading",
            ),
        }
    }
}

/// Whether branch `b` may be deleted. A main line, the checked-out branch,
/// a branch whose pull request is open, a branch whose pull request is not
/// known yet and a branch whose pull-request lookup failed are kept; a
/// branch with no pull request is kept in safe mode only. So in safe mode
/// only a branch with a merged or closed pull request may go. The checks
/// are made in that order.
pub open spec fn deletion_verdict(b: BranchInfo, safe_delete: bool) -> Result<(), DeleteError> {
    if b.is_main {
        Err(DeleteError::MainBranch)
    } else if b.is_current {
        Err(DeleteError::CurrentBranch)
    } else {
        match b.pr {
            Ok(Some(pr)) => if pr.status == PRStatus::OPENED {
                Err(DeleteError::OpenedPr)
            } else {
                Ok(())
            },
            Ok(None) => Err(DeleteError::PrPending),
            Err(GSWRError::PR_NOT_FOUND) => if safe_delete {
                Err(DeleteError::NoLinkedPr)
            } else {
                Ok(())
            },
            Err(GSWRError::Custom(_)) => Err(DeleteError::PrLookupFailed),
        }
    }
}

impl BranchInfo {
    /// Decides whether this branch may be deleted (`safe_delete` keeps
    /// branches that have no pull request). On `Ok` the caller removes the
    /// branch from the repository.
    pub fn delete(&self, safe_delete: bool) -> (r: Result<(), DeleteError>)
        ensures
            r == deletion_verdict(*self, safe_delete),
    {
        if self.is_main {
            return Err(DeleteError::MainBranch);
        }
        if self.is_current {
            return Err(DeleteError::CurrentBranch);
        }
        match &self.pr {
            Ok(Some(pr)) => {
                if pr.status == PRStatus::OPENED {
                    return Err(DeleteError::OpenedPr);
                }
            },
            Ok(None) => {
                return Err(DeleteError::PrPending);
            },
            Err(GSWRError::PR_NOT_FOUND) => {
                if safe_delete {
                    return Err(DeleteError::NoLinkedPr);
                }
            },
            Err(GSWRError::Custom(_)) => {
                return Err(DeleteError::PrLookupFailed);
            },
        }
        Ok(())
    }
}


/// The last commit of `a` is more recent than that of `b`; a branch
/// without a known last commit comes after every branch with one.
pub open spec fn newer(a: Option<i64>, b: Option<i64>) -> bool {
    match (a, b) {
        (Some(x), Some(y)) => x > y,
        (Some(_), None) => true,
        (None, _) => false,
    }
}

/// In the listing, `a` belongs strictly before `b`: the checked-out branch
/// first, then the most recently committed.
pub open spec fn ranks_before(a: BranchInfo, b: BranchInfo) -> bool {
    ||| (a.is_current && !b.is_current)
    ||| (a.is_current == b.is_current && newer(a.last_commit_date, b.last_commit_date))
}

/// `a` and `b` share a place in the listing order.
pub open spec fn same_rank(a: BranchInfo, b: BranchInfo) -> bool {
    a.is_current == b.is_current && a.last_commit_date == b.last_commit_date
}

/// No branch of `s` ranks before one that precedes it.
pub open spec fn listing_ordered(s: Seq<BranchInfo>) -> bool {
    forall|i: int, j: int| 0 <= i < j < s.len() ==> !ranks_before(#[trigger] s[j], #[trigger] s[i])
}

/// `p` maps each position of `r` to a distinct position of `s` holding the
/// same branch, and keeps branches of equal rank in their order in `s`.
pub open spec fn stable_arrangement(s: Seq<BranchInfo>, r: Seq<BranchInfo>, p: Seq<int>) -> bool {
    &&& p.len() == s.len()
    &&& r.len() == s.len()
    &&& forall|k: int| 0 <= k < p.len() ==> 0 <= #[trigger] p[k] < s.len()
    &&& forall|k: int, l: int| 0 <= k < l < p.len() ==> #[trigger] p[k] != #[trigger] p[l]
    &&& forall|k: int| 0 <= k < r.len() ==> #[trigger] r[k] == s[p[k]]
    &&& forall|k: int, l: int|
        0 <= k < l < r.len() && same_rank(#[trigger] r[k], #[trigger] r[l]) ==> p[k] < p[l]
}

/// `r` is `s` in listing order, branches of equal rank keeping their
/// relative order.
pub open spec fn is_stable_listing(s: Seq<BranchInfo>, r: Seq<BranchInfo>) -> bool {
    &&& listing_ordered(r)
    &&& exists|p: Seq<int>| stable_arrangement(s, r, p)
}

/// Whether `a` belongs strictly before `b` in the listing.
pub fn rank_before(a: &BranchInfo, b: &BranchInfo) -> (r: bool)
    ensures
        r == ranks_before(*a, *b),
{
    if a.is_current != b.is_current {
        return a.is_current;
    }
    match (a.last_commit_date, b.last_commit_date) {
        (Some(x), Some(y)) => x > y,
        (Some(_), None) => true,
        (None, _) => false,
    }
}

/// Orders branches for the listing: the checked-out branch first, then by
/// last commit, newest first, branches without a commit date last.
/// Branches of equal rank keep their order.
pub fn sort_branches(branches: Vec<BranchInfo>) -> (r: Vec<BranchInfo>)
    ensures
        is_stable_listing(branches@, r@),
{
    let ghost orig = branches@;
    let mut input = branches;
    let mut out: Vec<BranchInfo> = Vec::new();
    let ghost mut perm: Seq<int> = Seq::empty();
    let ghost mut i: int = 0;
    while input.len() > 0
        invariant
            0 <= i <= orig.len(),
            input@ == orig.subrange(i, orig.len() as int),
            perm.len() == i,
            out@.len() == i,
            forall|k: int| 0 <= k < perm.len() ==> 0 <= #[trigger] perm[k] < i,
            forall|k: int, l: int| 0 <= k < l < perm.len() ==> #[trigger] perm[k] != #[trigger] perm[l],
            forall|k: int| 0 <= k < out@.len() ==> #[trigger] out@[k] == orig[perm[k]],
            forall|k: int, l: int|
                0 <= k < l < out@.len() && same_rank(#[trigger] out@[k], #[trigger] out@[l]) ==> perm[k] < perm[l],
            listing_ordered(out@),
        decreases input@.len(),
    {
        let x = input.remove(0);
        let mut pos: usize = 0;
        while pos < out.len() && !rank_before(&x, &out[pos])
            invariant
                pos <= out@.len(),
                forall|k: int| 0 <= k < pos ==> !ranks_before(x, #[trigger] out@[k]),
            decreases out@.len() - pos,
        {
            pos = pos + 1;
        }
        let ghost old_out = out@;
        let ghost old_perm = perm;
        out.insert(pos, x);
        proof {
            perm = old_perm.insert(pos as int, i);
            assert forall|k: int, l: int| 0 <= k < l < out@.len() implies !ranks_before(
                #[trigger] out@[l],
                #[trigger] out@[k],
            ) by {
                if l < pos {
                } else if l == pos {
                    assert(!ranks_before(x, old_out[k]));
                } else if k == pos {
                    assert(ranks_before(x, old_out[pos as int]));
                    assert(out@[l] == old_out[l - 1]);
                    if l - 1 > pos {
                        assert(!ranks_before(old_out[l - 1], old_out[pos as int]));
                    }
                } else if k < pos {
                    assert(out@[l] == old_out[l - 1]);
                } else {
                    assert(out@[l] == old_out[l - 1]);
                    assert(out@[k] == old_out[k - 1]);
                }
            }
            assert forall|k: int, l: int|
                0 <= k < l < out@.len() && same_rank(#[trigger] out@[k], #[trigger] out@[l]) implies perm[k]
                < perm[l] by {
                if l < pos {
                } else if l == pos {
                } else if k == pos {
                    assert(ranks_before(x, old_out[pos as int]));
                    assert(out@[l] == old_out[l - 1]);
                    if l - 1 > pos {
                        assert(!ranks_before(old_out[l - 1], old_out[pos as int]));
                    }
                } else if k < pos {
                    assert(out@[l] == old_out[l - 1]);
                } else {
                    assert(out@[l] == old_out[l - 1]);
                    assert(out@[k] == old_out[k - 1]);
                }
            }
            assert forall|k: int| 0 <= k < out@.len() implies #[trigger] out@[k] == orig[perm[k]] by {
                if k < pos {
                } else if k == pos {
                } else {
                    assert(out@[k] == old_out[k - 1]);
                }
            }
            assert forall|k: int, l: int| 0 <= k < l < perm.len() implies #[trigger] perm[k]
                != #[trigger] perm[l] by {
                if k < pos && l > pos {
                    assert(perm[l] == old_perm[l - 1]);
                } else if k > pos {
                    assert(perm[l] == old_perm[l - 1]);
                    assert(perm[k] == old_perm[k - 1]);
                }
            }
            i = i + 1;
        }
    }
    assert(stable_arrangement(orig, out@, perm));
    out
}

} // verus!
