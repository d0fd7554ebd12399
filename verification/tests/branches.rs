use gswr::branch::{is_main_branch_name, sort_branches, BranchInfo, DeleteError};
use gswr::pr::{GSWRError, PRStatus, PR};

fn branch(name: &str, current: bool, date: Option<i64>) -> BranchInfo {
    BranchInfo::new(name.to_string(), current, date, None)
}

fn with_pr(mut b: BranchInfo, pr: Result<Option<PR>, GSWRError>) -> BranchInfo {
    b.pr = pr;
    b
}

fn pr(status: PRStatus) -> Result<Option<PR>, GSWRError> {
    Ok(Some(PR { title: "t".to_string(), status }))
}

#[test]
fn main_names_are_recognised() {
    for n in ["main", "master", "develop", "trunk"] {
        assert!(is_main_branch_name(n));
        assert!(branch(n, false, None).is_main);
    }
    for n in ["mainline", "Main", "", "feature/main", "trunk2"] {
        assert!(!is_main_branch_name(n));
    }
}

#[test]
fn new_branch_waits_for_its_pr() {
    let b = BranchInfo::new("feat".to_string(), true, Some(5), Some("msg".to_string()));
    assert_eq!(b.name, "feat");
    assert!(b.is_current);
    assert!(!b.is_main);
    assert_eq!(b.last_commit_date, Some(5));
    assert_eq!(b.last_commit_msg.as_deref(), Some("msg"));
    assert!(matches!(b.pr, Ok(None)));
}

#[test]
fn delete_refuses_main_branch() {
    let b = with_pr(branch("main", false, None), pr(PRStatus::MERGED));
    assert_eq!(b.delete(true), Err(DeleteError::MainBranch));
    assert_eq!(b.delete(false), Err(DeleteError::MainBranch));
    assert_eq!(DeleteError::MainBranch.message(), "cannot delete main branch");
}

#[test]
fn delete_refuses_current_branch() {
    let b = with_pr(branch("feat", true, None), pr(PRStatus::MERGED));
    assert_eq!(b.delete(false), Err(DeleteError::CurrentBranch));
    assert_eq!(DeleteError::CurrentBranch.message(), "cannot delete current branch");
}

#[test]
fn delete_refuses_opened_pr() {
    let b = with_pr(branch("feat", false, None), pr(PRStatus::OPENED));
    assert_eq!(b.delete(false), Err(DeleteError::OpenedPr));
    assert_eq!(DeleteError::OpenedPr.message(), "cannot delete branch linked to an opened PR");
}

#[test]
fn delete_without_pr_depends_on_mode() {
    let b = with_pr(branch("feat", false, None), Err(GSWRError::PR_NOT_FOUND));
    assert_eq!(b.delete(true), Err(DeleteError::NoLinkedPr));
    assert_eq!(b.delete(false), Ok(()));
    assert_eq!(DeleteError::NoLinkedPr.message(), "cannot delete branch not linked to a PR");
}

#[test]
fn delete_refuses_failed_lookup() {
    let b = with_pr(branch("feat", false, None), Err(GSWRError::Custom("boom".to_string())));
    assert_eq!(b.delete(false), Err(DeleteError::PrLookupFailed));
    assert_eq!(
        DeleteError::PrLookupFailed.message(),
        "cannot delete branch with an error on a PR"
    );
}

#[test]
fn delete_allows_merged_and_closed() {
    assert_eq!(with_pr(branch("a", false, None), pr(PRStatus::MERGED)).delete(true), Ok(()));
    assert_eq!(with_pr(branch("a", false, None), pr(PRStatus::CLOSED)).delete(true), Ok(()));
    assert_eq!(with_pr(branch("a", false, None), pr(PRStatus::CLOSED)).delete(false), Ok(()));
}

#[test]
fn delete_refuses_pending_pr_in_both_modes() {
    assert_eq!(branch("a", false, None).delete(true), Err(DeleteError::PrPending));
    assert_eq!(branch("a", false, None).delete(false), Err(DeleteError::PrPending));
    assert_eq!(
        DeleteError::PrPending.message(),
        "cannot delete branch while its PR is still loading"
    );
}

#[test]
fn listing_puts_current_first_then_newest() {
    let bs = vec![
        branch("old", false, Some(10)),
        branch("none", false, None),
        branch("new", false, Some(30)),
        branch("cur", true, Some(1)),
        branch("mid", false, Some(20)),
    ];
    let sorted = sort_branches(bs);
    let names: Vec<&str> = sorted.iter().map(|b| b.name.as_str()).collect();
    assert_eq!(names, vec!["cur", "new", "mid", "old", "none"]);
}

#[test]
fn listing_keeps_order_of_equal_rank() {
    let bs = vec![
        branch("b", false, Some(7)),
        branch("a", false, Some(7)),
        branch("x", false, None),
        branch("c", false, Some(7)),
        branch("y", false, None),
    ];
    let sorted = sort_branches(bs);
    let names: Vec<&str> = sorted.iter().map(|b| b.name.as_str()).collect();
    assert_eq!(names, vec!["b", "a", "c", "x", "y"]);
}

#[test]
fn listing_of_nothing_is_empty() {
    assert!(sort_branches(Vec::new()).is_empty());
}

#[test]
fn main_named_branches_are_never_deleted() {
    for n in ["main", "master", "develop", "trunk"] {
        let b = with_pr(branch(n, false, None), pr(PRStatus::MERGED));
        assert_eq!(b.delete(true), Err(DeleteError::MainBranch));
        assert_eq!(b.delete(false), Err(DeleteError::MainBranch));
    }
}
