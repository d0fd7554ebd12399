use vstd::prelude::*;
use vstd::string::*;
use crate::app::BranchPRUpdate;
use crate::pr::{GSWRError, PRStatus, PR};

verus! {

/// State of a pull request as the GitHub API reports it.
#[derive(Clone, Copy, Debug, PartialEq, Eq, Structural)]
#[allow(non_camel_case_types)]
pub enum PRState {
    OPEN,
    CLOSED,
}

/// The fields of a pull request that the switcher reads from the API.
pub struct PullRequest {
    pub title: String,
    /// Name of the branch the pull request merges from.
    pub head_ref: String,
    pub state: PRState,
    /// When it was merged, if it was.
    pub merged_at: Option<String>,
}

/// An open pull request is opened; a closed one is merged when it bears a
/// merge time, else closed.
pub open spec fn status_of(state: PRState, merged: bool) -> PRStatus {
    match state {
        PRState::OPEN => PRStatus::OPENED,
        PRState::CLOSED => if merged {
            PRStatus::MERGED
        } else {
            PRStatus::CLOSED
        },
    }
}

/// The update that a pull request brings to its head branch.
pub open spec fn update_of(pr: PullRequest) -> BranchPRUpdate {
    BranchPRUpdate {
        branch_name: Some(pr.head_ref),
        pr_result: Ok(Some(PR { title: pr.title, status: status_of(pr.state, pr.merged_at is Some) })),
    }
}

impl PullRequest {
    /// The update that this pull request brings to its head branch.
    pub fn into_update(self) -> (u: BranchPRUpdate)
        ensures
            u == update_of(self),
    {
        let status = match self.state {
            PRState::OPEN => PRStatus::OPENED,
            PRState::CLOSED => if self.merged_at.is_some() {
                PRStatus::MERGED
            } else {
                PRStatus::CLOSED
            },
        };
        BranchPRUpdate {
            branch_name: Some(self.head_ref),
            pr_result: Ok(Some(PR { title: self.title, status })),
        }
    }
}

/// The updates for a list of pull requests, in the order of the list.
pub fn pr_updates(prs: Vec<PullRequest>) -> (us: Vec<BranchPRUpdate>)
    ensures
        us@ == prs@.map_values(|p: PullRequest| update_of(p)),
{
    let ghost orig = prs@;
    let mut rest = prs;
    let mut us: Vec<BranchPRUpdate> = Vec::new();
    let ghost mut i: int = 0;
    while rest.len() > 0
        invariant
            0 <= i <= orig.len(),
            rest@ == orig.subrange(i, orig.len() as int),
            us@ == orig.take(i).map_values(|p: PullRequest| update_of(p)),
        decreases rest@.len(),
    {
        let p = rest.remove(0);
        us.push(p.into_update());
        proof {
            assert(orig.take(i + 1) =~= orig.take(i).push(p));
            assert(us@ =~= orig.take(i + 1).map_values(|p: PullRequest| update_of(p)));
            i = i + 1;
        }
    }
    assert(orig.take(orig.len() as int) =~= orig);
    us
}

/// The update sent to every branch when the lookup as a whole failed.
pub fn lookup_failed(reason: String) -> (u: BranchPRUpdate)
    ensures
        u == (BranchPRUpdate { branch_name: None, pr_result: Err(GSWRError::Custom(reason)) }),
{
    BranchPRUpdate { branch_name: None, pr_result: Err(GSWRError::Custom(reason)) }
}

/// The update sent when no API token is available: the reason, after the
/// name of the variable that holds the token.
pub fn missing_token(reason: &str) -> (u: BranchPRUpdate)
    ensures
        u.branch_name is None,
        u.pr_result matches Err(GSWRError::Custom(m)) && m@ == "GITHUB_TOKEN "@ + reason@,
{
    let mut m = String::from_str("GITHUB_TOKEN ");
    m.append(reason);
    lookup_failed(m)
}

/// The API address listing every pull request (open or not, up to 100) of
/// repository `repo` of `owner`.
pub fn pulls_url(owner: &str, repo: &str) -> (url: String)
    ensures
        url@ == "https://api.github.com/repos/"@ + owner@ + "/"@ + repo@
            + "/pulls?state=all&per_page=100"@,
{
    let mut url = String::from_str("https://api.github.com/repos/");
    url.append(owner);
    url.append("/");
    url.append(repo);
    url.append("/pulls?state=all&per_page=100");
    url
}

} // verus!
