use vstd::prelude::*;
use crate::app::{
    after_update, after_updates, next_row, prev_row, selected_delete_verdict, settle_all,
    sync_selects, sync_targets, with_pr, without_branch, BranchPRUpdate,
};
use crate::branch::{deletion_verdict, is_main_name, is_stable_listing, listing_ordered, ranks_before, BranchInfo, DeleteError};
use crate::pr::{GSWRError, PRStatus, PR};
use crate::remote::{github_path, owner_repo_of, trim_git};
use crate::github::{update_of, PRState, PullRequest};
use crate::text::{first_match_from, match_at};
use crate::ui::{truncated, truncation_defined};

verus! {

/// A main-line branch is never deleted: neither on its own nor by sync,
/// in either mode.
pub proof fn law_main_branch_protected(b: BranchInfo, safe_delete: bool)
    requires
        b.is_main,
    ensures
        deletion_verdict(b, safe_delete) == Err::<(), DeleteError>(DeleteError::MainBranch),
        !sync_selects(b, safe_delete),
{
}

/// A branch named `main`, `master`, `develop` or `trunk`, whose main-line
/// flag agrees with its name (as `BranchInfo::new` sets it and as
/// pull-request updates keep it), is never deleted: not by
/// `BranchInfo::delete`, not by sync, not by Shift+D, in either mode.
pub proof fn law_main_named_branch_protected(b: BranchInfo, safe_delete: bool)
    requires
        b.is_main == is_main_name(b.name@),
        is_main_name(b.name@),
    ensures
        deletion_verdict(b, safe_delete) == Err::<(), DeleteError>(DeleteError::MainBranch),
        !sync_selects(b, safe_delete),
        selected_delete_verdict(b) != Ok::<(), Option<DeleteError>>(()),
{
}

/// Sync removes exactly the branches that `BranchInfo::delete` allows in
/// the same mode.
pub proof fn law_sync_removes_exactly_deletable(b: BranchInfo, safe_delete: bool)
    ensures
        sync_selects(b, safe_delete) <==> deletion_verdict(b, safe_delete) == Ok::<(), DeleteError>(()),
{
}

/// In safe mode a branch may be deleted only when its pull request was
/// merged or closed.
pub proof fn law_safe_delete_needs_finished_pr(b: BranchInfo)
    requires
        deletion_verdict(b, true) == Ok::<(), DeleteError>(()),
    ensures
        b.pr matches Ok(Some(pr)) && (pr.status == PRStatus::MERGED || pr.status == PRStatus::CLOSED),
{
}

/// Shift+D never removes a main line or the checked-out branch, nor a
/// branch whose pull request is open, missing, or failed to load.
pub proof fn law_selected_delete_protects(b: BranchInfo)
    requires
        selected_delete_verdict(b) == Ok::<(), Option<DeleteError>>(()),
    ensures
        !b.is_main,
        !b.is_current,
        b.pr is Ok,
        !(b.pr matches Ok(Some(pr)) && pr.status == PRStatus::OPENED),
{
}

/// Whatever safe sync removes, unsafe sync removes too.
pub proof fn law_safe_sync_within_unsafe(b: BranchInfo)
    requires
        sync_selects(b, true),
    ensures
        sync_selects(b, false),
{
}

/// Safe sync removes only branches whose pull request was merged or closed.
pub proof fn law_safe_sync_needs_finished_pr(b: BranchInfo)
    requires
        sync_selects(b, true),
    ensures
        b.pr matches Ok(Some(pr)) && (pr.status == PRStatus::MERGED || pr.status == PRStatus::CLOSED),
{
}

/// Every name that sync hands over is that of a listed branch which is
/// neither a main line nor checked out and whose pull request is not open.
pub proof fn law_sync_targets_are_removable(bs: Seq<BranchInfo>, safe_delete: bool, name: String)
    requires
        sync_targets(bs, safe_delete).contains(name),
    ensures
        exists|i: int|
            0 <= i < bs.len() && #[trigger] bs[i].name == name && !bs[i].is_main && !bs[i].is_current
                && !(bs[i].pr matches Ok(Some(pr)) && pr.status == PRStatus::OPENED),
{
    let f = |b: BranchInfo| if sync_selects(b, safe_delete) { Some(b.name) } else { None };
    bs.lemma_filter_map_contains(f, name);
    let b = choose|b: BranchInfo| #[trigger] bs.contains(b) && f(b) == Some(name);
    let i = choose|i: int| 0 <= i < bs.len() && bs[i] == b;
    assert(bs[i].name == name);
}

/// Once the lookup has ended, no branch is left waiting for its pull
/// request; nothing else about the branches changes.
pub proof fn law_settled_leaves_no_pending(bs: Seq<BranchInfo>)
    ensures
        settle_all(bs).len() == bs.len(),
        forall|i: int|
            0 <= i < bs.len() ==> {
                &&& (#[trigger] settle_all(bs)[i]).pr != Ok::<Option<PR>, GSWRError>(None)
                &&& settle_all(bs)[i] == with_pr(bs[i], settle_all(bs)[i].pr)
            },
{
}

/// A pull-request update changes no branch but for its pull request: the
/// list keeps its length, order, names and flags.
pub proof fn law_update_keeps_branches(bs: Seq<BranchInfo>, u: BranchPRUpdate)
    ensures
        after_update(bs, u).len() == bs.len(),
        forall|i: int|
            0 <= i < bs.len() ==> #[trigger] after_update(bs, u)[i] == with_pr(
                bs[i],
                after_update(bs, u)[i].pr,
            ),
{
    if let Some(name) = u.branch_name {
        crate::app::lemma_first_named_meaning(bs, name@);
    }
}

/// Any run of pull-request updates changes no branch but for its pull
/// request.
pub proof fn law_updates_keep_branches(bs: Seq<BranchInfo>, us: Seq<BranchPRUpdate>)
    ensures
        after_updates(bs, us).len() == bs.len(),
        forall|i: int|
            0 <= i < bs.len() ==> #[trigger] after_updates(bs, us)[i] == with_pr(
                bs[i],
                after_updates(bs, us)[i].pr,
            ),
    decreases us.len(),
{
    if us.len() > 0 {
        law_updates_keep_branches(bs, us.drop_last());
        law_update_keeps_branches(after_updates(bs, us.drop_last()), us.last());
    }
}

/// In the listing, the checked-out branch comes first.
pub proof fn law_current_branch_listed_first(s: Seq<BranchInfo>, r: Seq<BranchInfo>, k: int)
    requires
        is_stable_listing(s, r),
        0 <= k < s.len(),
        s[k].is_current,
    ensures
        r.len() > 0 && r[0].is_current,
{
    let p = choose|p: Seq<int>| crate::branch::stable_arrangement(s, r, p);
    assert(r.len() == s.len());
    if !r[0].is_current {
        // some position of r holds branch k
        assert forall|m: int| 0 <= m < r.len() implies #[trigger] r[m] != s[k] by {
            if m > 0 {
                assert(!ranks_before(r[m], r[0]));
            }
        }
        // p maps r's positions injectively into s's: position k is hit
        lemma_injective_covers(p, s.len() as int, k);
        let m = choose|m: int| 0 <= m < p.len() && p[m] == k;
        assert(r[m] == s[k]);
    }
}

/// An injective map of `n` positions into `0..n` reaches every position.
pub proof fn lemma_injective_covers(p: Seq<int>, n: int, k: int)
    requires
        p.len() == n,
        0 <= k < n,
        forall|i: int| 0 <= i < p.len() ==> 0 <= #[trigger] p[i] < n,
        forall|i: int, j: int| 0 <= i < j < p.len() ==> #[trigger] p[i] != #[trigger] p[j],
    ensures
        exists|m: int| 0 <= m < p.len() && p[m] == k,
{
    if !(exists|m: int| 0 <= m < p.len() && p[m] == k) {
        let s = p.to_set();
        p.unique_seq_to_set();
        let t = Set::new(|x: int| 0 <= x < n && x != k);
        assert(s.subset_of(t));
        vstd::set_lib::lemma_int_range(0, n);
        let full = vstd::set_lib::set_int_range(0, n);
        assert(t =~= full.remove(k));
        vstd::set_lib::lemma_len_subset(s, t);
        assert(false);
    }
}

/// A cut text fits its column.
pub proof fn law_truncated_fits(s: Seq<char>, max_chars: nat)
    requires
        truncation_defined(s.len(), max_chars),
    ensures
        truncated(s, max_chars).len() <= max_chars,
{
    reveal_strlit("…");
}

/// Moving the selection keeps it on a row of a list of fewer than 256
/// rows.
pub proof fn law_selection_stays_in_list(selected: u8, len: nat)
    requires
        0 < len < 256,
        selected < len,
    ensures
        next_row(selected, len) < len,
        prev_row(selected, len) < len,
{
}

/// After a branch is removed, no listed branch bears its name and every
/// branch of another name is still listed.
pub proof fn law_removed_branch_gone(bs: Seq<BranchInfo>, name: Seq<char>)
    ensures
        forall|i: int| 0 <= i < without_branch(bs, name).len() ==> #[trigger] without_branch(bs, name)[i].name@ != name,
        forall|i: int| 0 <= i < bs.len() && #[trigger] bs[i].name@ != name ==> without_branch(bs, name).contains(bs[i]),
{
    let keep = crate::app::not_named(name);
    assert forall|i: int| 0 <= i < without_branch(bs, name).len() implies #[trigger] without_branch(bs, name)[i].name@
        != name by {
        bs.lemma_filter_pred(keep, i);
    }
    assert forall|i: int| 0 <= i < bs.len() && #[trigger] bs[i].name@ != name implies without_branch(bs, name).contains(
        bs[i],
    ) by {
        bs.lemma_filter_contains(keep, i);
    }
}

/// The owner read from a remote URL holds no `/`.
pub proof fn law_owner_has_no_slash(url: Seq<char>)
    requires
        owner_repo_of(url) is Ok,
    ensures
        !owner_repo_of(url)->Ok_0.0.contains('/'),
{
    let t = crate::remote::trim_git(crate::remote::github_path(url)->Some_0);
    let k = first_match_from(t, seq!['/'], 0)->Some_0;
    crate::text::lemma_first_match_meaning(t, seq!['/'], 0);
    assert forall|j: int| 0 <= j < k implies t[j] != '/' by {
        assert(!match_at(t, seq!['/'], j));
        if t[j] == '/' {
            assert(t.subrange(j, j + 1) =~= seq!['/']);
        }
    }
}

/// In a listing, the checked-out branch precedes every other branch;
/// among branches that agree on being checked out, one with a later
/// commit time (the full Unix time, compared as numbers) precedes one
/// with an earlier time, and one with a commit time precedes one without.
pub proof fn law_listing_orders_by_commit_time(s: Seq<BranchInfo>, r: Seq<BranchInfo>)
    requires
        is_stable_listing(s, r),
    ensures
        forall|i: int, j: int|
            0 <= i < j < r.len() && #[trigger] r[j].is_current ==> #[trigger] r[i].is_current,
        forall|i: int, j: int|
            0 <= i < j < r.len() && #[trigger] r[i].is_current == #[trigger] r[j].is_current
                && r[i].last_commit_date is Some && r[j].last_commit_date is Some
                ==> r[i].last_commit_date->Some_0 >= r[j].last_commit_date->Some_0,
        forall|i: int, j: int|
            0 <= i < j < r.len() && #[trigger] r[i].is_current == #[trigger] r[j].is_current
                && r[i].last_commit_date is None ==> r[j].last_commit_date is None,
{
    assert forall|i: int, j: int|
        0 <= i < j < r.len() && #[trigger] r[j].is_current implies #[trigger] r[i].is_current by {
        assert(!ranks_before(r[j], r[i]));
    }
    assert forall|i: int, j: int|
        0 <= i < j < r.len() && #[trigger] r[i].is_current == #[trigger] r[j].is_current
            && r[i].last_commit_date is Some && r[j].last_commit_date is Some
            implies r[i].last_commit_date->Some_0 >= r[j].last_commit_date->Some_0 by {
        assert(!ranks_before(r[j], r[i]));
    }
    assert forall|i: int, j: int|
        0 <= i < j < r.len() && #[trigger] r[i].is_current == #[trigger] r[j].is_current
            && r[i].last_commit_date is None implies r[j].last_commit_date is None by {
        assert(!ranks_before(r[j], r[i]));
    }
}

/// Appending `.git` to a path does not change what trimming leaves.
pub proof fn lemma_trim_git_appended(p: Seq<char>)
    ensures
        trim_git(p + ".git"@) == trim_git(p),
{
    reveal_strlit(".git");
    let q = p + ".git"@;
    assert(q.subrange(q.len() - 4, q.len() as int) =~= ".git"@);
    assert(q.subrange(0, q.len() - 4) =~= p);
}

/// `k` copies of `.git`.
pub open spec fn git_suffixes(k: nat) -> Seq<char>
    decreases k,
{
    if k == 0 {
        Seq::empty()
    } else {
        git_suffixes((k - 1) as nat) + ".git"@
    }
}

/// Trimming removes any number of trailing `.git`.
pub proof fn lemma_trim_git_suffixes(p: Seq<char>, k: nat)
    ensures
        trim_git(p + git_suffixes(k)) == trim_git(p),
    decreases k,
{
    if k > 0 {
        let prev = p + git_suffixes((k - 1) as nat);
        assert(p + git_suffixes(k) =~= prev + ".git"@);
        lemma_trim_git_appended(prev);
        lemma_trim_git_suffixes(p, (k - 1) as nat);
    } else {
        assert(p + git_suffixes(k) =~= p);
    }
}

/// When the path after the host is `owner/repo` followed by any number of
/// `.git`, the owner holding no `/` and the repository not ending in
/// `.git` (the dot included: a name ending in `git` alone stays whole),
/// the owner and repository read are exactly `owner` and `repo`.
pub proof fn law_owner_repo_from_path(url: Seq<char>, owner: Seq<char>, repo: Seq<char>, k: nat)
    requires
        github_path(url) == Some(owner + "/"@ + repo + git_suffixes(k)),
        !owner.contains('/'),
        !(repo.len() >= 4 && repo.subrange(repo.len() - 4, repo.len() as int) =~= ".git"@),
    ensures
        owner_repo_of(url) == Ok::<(Seq<char>, Seq<char>), crate::remote::OwnerRepoError>((owner, repo)),
{
    reveal_strlit("/");
    reveal_strlit(".git");
    let p = owner + "/"@ + repo;
    assert(owner + "/"@ + repo + git_suffixes(k) =~= p + git_suffixes(k));
    lemma_trim_git_suffixes(p, k);
    // p itself ends in no `.git`
    if p.len() >= 4 && p.subrange(p.len() - 4, p.len() as int) =~= ".git"@ {
        if repo.len() >= 4 {
            assert(p.subrange(p.len() - 4, p.len() as int) =~= repo.subrange(repo.len() - 4, repo.len() as int));
        } else {
            let slash = owner.len() as int;
            assert(p[slash] == '/');
            let idx = slash - (p.len() - 4);
            assert(0 <= idx < 4);
            assert(p.subrange(p.len() - 4, p.len() as int)[idx] == p[slash]);
            assert(".git"@[idx] != '/');
        }
    }
    assert(trim_git(p) == p);
    let kk = owner.len() as int;
    assert(p.subrange(kk, kk + 1) =~= seq!['/']);
    assert forall|j: int| 0 <= j < kk implies !match_at(p, seq!['/'], j) by {
        if match_at(p, seq!['/'], j) {
            assert(p.subrange(j, j + 1)[0] == '/');
            assert(owner[j] == '/');
            assert(owner.contains('/'));
        }
    }
    crate::text::lemma_first_match(p, seq!['/'], 0, kk);
    assert(p.subrange(0, kk) =~= owner);
    assert(p.subrange(kk + 1, p.len() as int) =~= repo);
}

/// When the lookup ends, a branch still waiting gets "no pull request",
/// and every other branch keeps exactly what it had (a found pull request
/// or a failed lookup alike).
pub proof fn law_settle_touches_only_pending(bs: Seq<BranchInfo>)
    ensures
        settle_all(bs).len() == bs.len(),
        forall|i: int|
            0 <= i < bs.len() && bs[i].pr != Ok::<Option<PR>, GSWRError>(None) ==> #[trigger] settle_all(bs)[i]
                == bs[i],
        forall|i: int|
            0 <= i < bs.len() && bs[i].pr == Ok::<Option<PR>, GSWRError>(None) ==> #[trigger] settle_all(bs)[i]
                == with_pr(bs[i], Err(GSWRError::PR_NOT_FOUND)),
{
}

/// Up selects the row just above, unless already on the first row; Down
/// selects the row just below, or the first row from the last, in a list
/// of fewer than 256 rows.
pub proof fn law_moves_are_one_row(selected: u8, len: nat)
    requires
        0 < len < 256,
        selected < len,
    ensures
        selected > 0 ==> prev_row(selected, len) == selected - 1,
        selected == 0 ==> prev_row(selected, len) == 0,
        selected + 1 < len ==> next_row(selected, len) == selected + 1,
        selected + 1 == len ==> next_row(selected, len) == 0,
{
    assert(len % 256 == len);
    if selected + 1 < len {
        assert((selected + 1) % (len as int) == selected + 1) by (nonlinear_arith)
            requires
                0 <= selected + 1 < len,
        ;
    }
    if selected + 1 == len {
        assert((selected + 1) % (len as int) == 0) by (nonlinear_arith)
            requires
                selected + 1 == len,
                len > 0,
        ;
    }
}

/// The update made from an API pull request goes to the pull request's
/// head branch and carries its own title, with the status open for an
/// open pull request, merged for a closed one with a merge time, and
/// closed for a closed one without.
pub proof fn law_update_carries_pull_request(p: PullRequest)
    ensures
        update_of(p).branch_name == Some(p.head_ref),
        update_of(p).pr_result matches Ok(Some(pr)) && pr.title == p.title && pr.status == (
        match p.state {
            PRState::OPEN => PRStatus::OPENED,
            PRState::CLOSED => if p.merged_at is Some {
                PRStatus::MERGED
            } else {
                PRStatus::CLOSED
            },
        }),
{
}

/// A result for one branch name reaches the first listed branch of that
/// name and no other; a result for all reaches every branch; nothing else
/// changes.
pub proof fn law_update_reaches_its_branch(bs: Seq<BranchInfo>, u: BranchPRUpdate)
    ensures
        u.branch_name is None ==> forall|i: int|
            0 <= i < bs.len() ==> #[trigger] after_update(bs, u)[i] == with_pr(bs[i], u.pr_result),
        u.branch_name is Some ==> forall|i: int|
            0 <= i < bs.len() ==> #[trigger] after_update(bs, u)[i] == if bs[i].name@
                == u.branch_name->Some_0@ && forall|j: int|
                0 <= j < i ==> bs[j].name@ != u.branch_name->Some_0@ {
                with_pr(bs[i], u.pr_result)
            } else {
                bs[i]
            },
{
    if let Some(name) = u.branch_name {
        crate::app::lemma_first_named_meaning(bs, name@);
        assert forall|i: int| 0 <= i < bs.len() implies #[trigger] after_update(bs, u)[i] == if bs[i].name@
            == name@ && forall|j: int| 0 <= j < i ==> bs[j].name@ != name@ {
            with_pr(bs[i], u.pr_result)
        } else {
            bs[i]
        } by {
            match crate::app::first_named(bs, name@) {
                Some(k) => {
                    if i < k {
                        assert(bs[i].name@ != name@);
                    } else if i > k {
                        assert(bs[k].name@ == name@);
                    }
                },
                None => {},
            }
        }
    }
}

/// A text that fits its column is shown whole; a longer one shows its
/// first `max_chars - 3` characters and an ellipsis, two characters less
/// than the column holds.
pub proof fn law_truncated_shape(s: Seq<char>, max_chars: nat)
    requires
        truncation_defined(s.len(), max_chars),
        max_chars > 0,
    ensures
        s.len() <= max_chars ==> truncated(s, max_chars) == s,
        s.len() > max_chars ==> {
            let t = truncated(s, max_chars);
            &&& t.len() == max_chars - 2
            &&& t.subrange(0, max_chars - 3) == s.subrange(0, max_chars - 3)
            &&& t.last() == '…'
        },
{
    reveal_strlit("…");
    if s.len() > max_chars {
        let t = truncated(s, max_chars);
        assert("…"@ =~= seq!['…']);
        assert(t =~= s.take(max_chars - 3) + seq!['…']);
        assert(t.last() == '…');
        assert(t.subrange(0, max_chars - 3) =~= s.subrange(0, max_chars - 3));
    }
}

} // verus!
