use vstd::prelude::*;

verus! {

/// Lifecycle status of a pull request as shown next to a branch.
#[derive(Clone, Copy, Debug, PartialEq, Eq, Structural)]
#[allow(non_camel_case_types)]
pub enum PRStatus {
    OPENED,
    MERGED,
    CLOSED,
}

/// A pull request linked to a branch.
#[derive(Clone, Debug)]
pub struct PR {
    pub title: String,
    pub status: PRStatus,
}

/// Why no pull request is shown for a branch.
#[derive(Clone, Debug)]
#[allow(non_camel_case_types)]
pub enum GSWRError {
    /// The lookup finished and no pull request has this branch as head.
    PR_NOT_FOUND,
    /// The lookup itself failed; the text says why.
    Custom(String),
}

/// `Ok(None)` while the lookup is still running, `Ok(Some(pr))` once a
/// pull request was found, `Err(..)` when there is none or the lookup failed.
pub type PRResult = Result<Option<PR>, GSWRError>;

/// A copy of a pull-request result, equal to the one it was made from.
pub fn clone_pr_result(r: &PRResult) -> (out: PRResult)
    ensures
        out == *r,
{
    match r {
        Ok(None) => Ok(None),
        Ok(Some(pr)) => Ok(Some(PR { title: pr.title.clone(), status: pr.status })),
        Err(GSWRError::PR_NOT_FOUND) => Err(GSWRError::PR_NOT_FOUND),
        Err(GSWRError::Custom(msg)) => Err(GSWRError::Custom(msg.clone())),
    }
}

} // verus!
