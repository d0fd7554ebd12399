use vstd::prelude::*;
use vstd::string::*;
use crate::branch::{delete_error_text, BranchInfo, DeleteError};
use crate::pr::{clone_pr_result, GSWRError, PRResult, PRStatus, PR};

verus! {

/// What the caller does next.
pub enum GSWRActions {
    /// Switch to the named branch, then leave.
    Checkout(String),
    /// Leave.
    Quit,
    /// Keep running.
    Idle,
    /// Remove the named local branch, then report with `App::record_deletion`.
    DeleteBranch(String),
    /// Remove the named local branches in order, reporting each with
    /// `App::record_deletion` and stopping at the first failure.
    SyncBranches(Vec<String>),
}

/// A pull-request lookup result for one branch (`Some(name)`) or for every
/// branch (`None`, used when the lookup as a whole failed).
pub struct BranchPRUpdate {
    pub branch_name: Option<String>,
    pub pr_result: PRResult,
}

/// State of the branch switcher.
pub struct App {
    pub local_branches: Vec<BranchInfo>,
    /// Highlighted row.
    pub selected: u8,
    /// Pull-request results may still arrive.
    pub awaiting_prs: bool,
    /// Frame of the loading spinner.
    pub throbber_index: i8,
    /// The sync prompt is shown and waits for an answer.
    pub confirming_sync: bool,
    pub error_message: Option<String>,
}

/// Branch `b` with its pull-request result replaced.
pub open spec fn with_pr(b: BranchInfo, pr: PRResult) -> BranchInfo {
    BranchInfo { pr, ..b }
}

/// Sync removes branch `b`: it is neither a main line nor checked out, and
/// its pull request is merged or closed, or (outside safe mode) it has no
/// pull request. Branches whose pull request is still being looked up, or
/// whose lookup failed, stay.
pub open spec fn sync_selects(b: BranchInfo, safe_delete: bool) -> bool {
    &&& !b.is_main
    &&& !b.is_current
    &&& match b.pr {
        Ok(Some(pr)) => pr.status == PRStatus::MERGED || pr.status == PRStatus::CLOSED,
        Ok(None) => false,
        Err(GSWRError::PR_NOT_FOUND) => !safe_delete,
        Err(GSWRError::Custom(_)) => false,
    }
}

/// The names of the branches that sync removes, in listing order.
pub open spec fn sync_targets(bs: Seq<BranchInfo>, safe_delete: bool) -> Seq<String> {
    bs.filter_map(|b: BranchInfo| if sync_selects(b, safe_delete) { Some(b.name) } else { None })
}

/// The branch is not named `name`.
pub open spec fn not_named(name: Seq<char>) -> spec_fn(BranchInfo) -> bool {
    |b: BranchInfo| b.name@ != name
}

/// `bs` without the branches named `name`.
pub open spec fn without_branch(bs: Seq<BranchInfo>, name: Seq<char>) -> Seq<BranchInfo> {
    bs.filter(not_named(name))
}

/// The row after `selected` among `len` rows, wrapping to the first.
/// The row count is held in a byte, so it counts modulo 256.
pub open spec fn next_row(selected: u8, len: nat) -> u8 {
    if len == 0 {
        selected
    } else {
        ((selected + 1) % ((len % 256) as int)) as u8
    }
}

/// The row before `selected`, stopping at the first.
pub open spec fn prev_row(selected: u8, len: nat) -> u8 {
    if len == 0 || selected == 0 {
        selected
    } else {
        (selected - 1) as u8
    }
}

impl App {
    /// `next` can move the selection: the row count is not a non-zero
    /// multiple of 256 and the selection is not at the last byte value.
    pub open spec fn can_move_next(&self) -> bool {
        self.local_branches@.len() == 0 || (self.local_branches@.len() % 256 != 0
            && self.selected < 255)
    }

    /// Whether `next` (and Down or `j` in `handle_key`) is defined now.
    pub fn can_move_next_now(&self) -> (r: bool)
        ensures
            r == self.can_move_next(),
    {
        self.local_branches.len() == 0 || (self.local_branches.len() % 256 != 0 && self.selected < 255)
    }

    /// A switcher over `branches`, first row selected, no prompt and no error.
    pub fn new(branches: Vec<BranchInfo>, awaiting_prs: bool) -> (app: App)
        ensures
            app.local_branches@ == branches@,
            app.selected == 0,
            app.awaiting_prs == awaiting_prs,
            app.throbber_index == 0,
            !app.confirming_sync,
            app.error_message is None,
    {
        App {
            local_branches: branches,
            selected: 0,
            awaiting_prs,
            throbber_index: 0,
            confirming_sync: false,
            error_message: None,
        }
    }

    /// Moves the selection down one row, from the last row back to the first.
    pub fn next(&mut self)
        requires
            old(self).can_move_next(),
        ensures
            final(self).selected == next_row(old(self).selected, old(self).local_branches@.len()),
            final(self).local_branches@ == old(self).local_branches@,
            final(self).awaiting_prs == old(self).awaiting_prs,
            final(self).throbber_index == old(self).throbber_index,
            final(self).confirming_sync == old(self).confirming_sync,
            final(self).error_message == old(self).error_message,
    {
        if self.local_branches.len() != 0 {
            let rows: u8 = (self.local_branches.len() % 256) as u8;
            self.selected = (self.selected + 1) % rows;
        }
    }

    /// Moves the selection up one row, staying on the first row.
    pub fn prev(&mut self)
        ensures
            final(self).selected == prev_row(old(self).selected, old(self).local_branches@.len()),
            final(self).local_branches@ == old(self).local_branches@,
            final(self).awaiting_prs == old(self).awaiting_prs,
            final(self).throbber_index == old(self).throbber_index,
            final(self).confirming_sync == old(self).confirming_sync,
            final(self).error_message == old(self).error_message,
    {
        if self.local_branches.len() != 0 {
            self.selected = if self.selected == 0 {
                0
            } else {
                self.selected - 1
            };
        }
    }

    /// Enter on a row: switch to the selected branch, or just leave when it
    /// is already checked out or no row is selected.
    pub fn confirm(&self) -> (a: GSWRActions)
        ensures
            ({
                let bs = self.local_branches@;
                let i = self.selected as int;
                if i < bs.len() && !bs[i].is_current {
                    a == GSWRActions::Checkout(bs[i].name)
                } else {
                    a == GSWRActions::Quit
                }
            }),
    {
        let i = self.selected as usize;
        if i < self.local_branches.len() {
            let b = &self.local_branches[i];
            if b.is_current {
                GSWRActions::Quit
            } else {
                GSWRActions::Checkout(b.name.clone())
            }
        } else {
            GSWRActions::Quit
        }
    }

    /// The branches that sync removes, in listing order (see `sync_selects`).
    pub fn sync(&self, safe_delete: bool) -> (names: Vec<String>)
        ensures
            names@ == sync_targets(self.local_branches@, safe_delete),
    {
        let bs = &self.local_branches;
        let ghost f = |b: BranchInfo| if sync_selects(b, safe_delete) { Some(b.name) } else { None };
        let mut names: Vec<String> = Vec::new();
        let mut i: usize = 0;
        while i < bs.len()
            invariant
                i <= bs@.len(),
                names@ == bs@.take(i as int).filter_map(f),
                f == (|b: BranchInfo| if sync_selects(b, safe_delete) { Some(b.name) } else { None }),
            decreases bs@.len() - i,
        {
            proof {
                bs@.lemma_filter_map_take_succ(f, i as int);
            }
            let b = &bs[i];
            let selected = !b.is_main && !b.is_current && match &b.pr {
                Ok(Some(pr)) => pr.status == PRStatus::MERGED || pr.status == PRStatus::CLOSED,
                Ok(None) => false,
                Err(GSWRError::PR_NOT_FOUND) => !safe_delete,
                Err(GSWRError::Custom(_)) => false,
            };
            if selected {
                names.push(b.name.clone());
            }
            i = i + 1;
        }
        assert(bs@.take(bs@.len() as int) =~= bs@);
        names
    }
}

impl App {
    /// Takes in the outcome of removing branch `branch_name` from the
    /// repository: on success every listed branch of that name goes away;
    /// on failure the error text is shown.
    pub fn record_deletion(&mut self, branch_name: &String, outcome: Result<(), String>)
        ensures
            match outcome {
                Ok(()) => {
                    &&& final(self).local_branches@ == without_branch(
                        old(self).local_branches@,
                        branch_name@,
                    )
                    &&& final(self).error_message == old(self).error_message
                },
                Err(msg) => {
                    &&& final(self).local_branches@ == old(self).local_branches@
                    &&& final(self).error_message == Some(msg)
                },
            },
            final(self).selected == old(self).selected,
            final(self).awaiting_prs == old(self).awaiting_prs,
            final(self).throbber_index == old(self).throbber_index,
            final(self).confirming_sync == old(self).confirming_sync,
    {
        match outcome {
            Ok(()) => {
                let mut rest: Vec<BranchInfo> = Vec::new();
                std::mem::swap(&mut rest, &mut self.local_branches);
                let ghost orig = rest@;
                let ghost keep = not_named(branch_name@);
                let ghost mut i: int = 0;
                while rest.len() > 0
                    invariant
                        0 <= i <= orig.len(),
                        rest@ == orig.subrange(i, orig.len() as int),
                        self.local_branches@ == orig.take(i).filter(keep),
                        keep == not_named(branch_name@),
                        self.selected == old(self).selected,
                        self.awaiting_prs == old(self).awaiting_prs,
                        self.throbber_index == old(self).throbber_index,
                        self.confirming_sync == old(self).confirming_sync,
                        self.error_message == old(self).error_message,
                    decreases rest@.len(),
                {
                    let b = rest.remove(0);
                    proof {
                        assert(orig.take(i + 1).drop_last() =~= orig.take(i));
                        assert(orig.take(i + 1).last() == b);
                        reveal(Seq::filter);
                    }
                    if b.name != *branch_name {
                        self.local_branches.push(b);
                    }
                    proof {
                        i = i + 1;
                    }
                }
                assert(orig.take(orig.len() as int) =~= orig);
            },
            Err(msg) => {
                self.error_message = Some(msg);
            },
        }
    }

    /// One step of a sync: takes in the outcome of removing `branch_name`
    /// (as `record_deletion` does) and gives the names still to remove:
    /// the rest after a success, none after a failure, so that a sync stops
    /// at its first failed removal.
    pub fn continue_sync(&mut self, branch_name: &String, outcome: Result<(), String>, rest: Vec<String>) -> (left: Vec<String>)
        ensures
            match outcome {
                Ok(()) => {
                    &&& final(self).local_branches@ == without_branch(
                        old(self).local_branches@,
                        branch_name@,
                    )
                    &&& final(self).error_message == old(self).error_message
                    &&& left@ == rest@
                },
                Err(msg) => {
                    &&& final(self).local_branches@ == old(self).local_branches@
                    &&& final(self).error_message == Some(msg)
                    &&& left@.len() == 0
                },
            },
            final(self).selected == old(self).selected,
            final(self).awaiting_prs == old(self).awaiting_prs,
            final(self).throbber_index == old(self).throbber_index,
            final(self).confirming_sync == old(self).confirming_sync,
    {
        let failed = outcome.is_err();
        self.record_deletion(branch_name, outcome);
        if failed {
            Vec::new()
        } else {
            rest
        }
    }

    /// Shift+D: whether the selected branch may be removed (see
    /// `selected_delete_verdict`). When it may, its name is returned and the
    /// caller removes it, then reports with `record_deletion`; when not,
    /// the reason is shown (or, after a failed pull-request lookup, nothing
    /// is shown) and nothing is returned.
    pub fn delete_selected_branch(&mut self) -> (target: Option<String>)
        ensures
            ({
                let bs = old(self).local_branches@;
                let i = old(self).selected as int;
                if i >= bs.len() {
                    &&& target is None
                    &&& final(self).error_message matches Some(m) && m@ == "local branch not found"@
                } else {
                    match selected_delete_verdict(bs[i]) {
                        Ok(()) => {
                            &&& target == Some(bs[i].name)
                            &&& final(self).error_message == old(self).error_message
                        },
                        Err(None) => {
                            &&& target is None
                            &&& final(self).error_message == old(self).error_message
                        },
                        Err(Some(e)) => {
                            &&& target is None
                            &&& final(self).error_message matches Some(m) && m@ == delete_error_text(e)
                        },
                    }
                }
            }),
            final(self).local_branches@ == old(self).local_branches@,
            final(self).selected == old(self).selected,
            final(self).awaiting_prs == old(self).awaiting_prs,
            final(self).throbber_index == old(self).throbber_index,
            final(self).confirming_sync == old(self).confirming_sync,
    {
        let i = self.selected as usize;
        if i >= self.local_branches.len() {
            self.error_message = Some(String::from_str("local branch not found"));
            return None;
        }
        let b = &self.local_branches[i];
        let refusal: Option<DeleteError> = match &b.pr {
            Ok(Some(pr)) => {
                if pr.status == PRStatus::OPENED {
                    Some(DeleteError::OpenedPr)
                } else {
                    None
                }
            },
            Ok(None) => None,
            Err(GSWRError::PR_NOT_FOUND) => Some(DeleteError::NoLinkedPr),
            Err(GSWRError::Custom(_)) => {
                return None;
            },
        };
        let refusal = match refusal {
            Some(e) => Some(e),
            None => if b.is_main {
                Some(DeleteError::MainBranch)
            } else if b.is_current {
                Some(DeleteError::CurrentBranch)
            } else {
                None
            },
        };
        match refusal {
            None => Some(self.local_branches[i].name.clone()),
            Some(e) => {
                self.error_message = Some(e.message());
                None
            },
        }
    }
}

/// Whether Shift+D removes branch `b`. First its pull request: an open one
/// is refused, so is a missing one, and after a failed lookup the key does
/// nothing (`Err(None)`). Then a main line and the checked-out branch are
/// refused. A branch whose pull request is merged, closed or not known yet
/// may go.
pub open spec fn selected_delete_verdict(b: BranchInfo) -> Result<(), Option<DeleteError>> {
    match b.pr {
        Ok(Some(pr)) if pr.status == PRStatus::OPENED => Err(Some(DeleteError::OpenedPr)),
        Err(GSWRError::PR_NOT_FOUND) => Err(Some(DeleteError::NoLinkedPr)),
        Err(GSWRError::Custom(_)) => Err(None),
        _ => if b.is_main {
            Err(Some(DeleteError::MainBranch))
        } else if b.is_current {
            Err(Some(DeleteError::CurrentBranch))
        } else {
            Ok(())
        },
    }
}

/// `k` is the first position of `bs` holding a branch named `name`.
pub open spec fn is_first_named(bs: Seq<BranchInfo>, name: Seq<char>, k: int) -> bool {
    &&& 0 <= k < bs.len()
    &&& bs[k].name@ == name
    &&& forall|j: int| 0 <= j < k ==> bs[j].name@ != name
}

/// The first position of `bs` holding a branch named `name`, if any.
#[verifier::opaque]
pub open spec fn first_named(bs: Seq<BranchInfo>, name: Seq<char>) -> Option<int> {
    if exists|k: int| 0 <= k < bs.len() && #[trigger] bs[k].name@ == name {
        Some(choose|k: int| is_first_named(bs, name, k))
    } else {
        None
    }
}

/// If some branch bears `name`, a first one does.
pub proof fn lemma_first_named_exists(bs: Seq<BranchInfo>, name: Seq<char>, k: int)
    requires
        0 <= k < bs.len(),
        bs[k].name@ == name,
    ensures
        exists|c: int| is_first_named(bs, name, c),
    decreases k,
{
    if exists|j: int| 0 <= j < k && bs[j].name@ == name {
        let j = choose|j: int| 0 <= j < k && bs[j].name@ == name;
        lemma_first_named_exists(bs, name, j);
    } else {
        assert(is_first_named(bs, name, k));
    }
}

/// What `first_named` gives: the first branch of that name, or none when
/// no branch bears it.
pub proof fn lemma_first_named_meaning(bs: Seq<BranchInfo>, name: Seq<char>)
    ensures
        match first_named(bs, name) {
            Some(k) => is_first_named(bs, name, k),
            None => forall|j: int| 0 <= j < bs.len() ==> bs[j].name@ != name,
        },
{
    reveal(first_named);
    if exists|k: int| 0 <= k < bs.len() && #[trigger] bs[k].name@ == name {
        let k = choose|k: int| 0 <= k < bs.len() && #[trigger] bs[k].name@ == name;
        lemma_first_named_exists(bs, name, k);
    }
}

/// `first_named` picks the first branch of that name, or none when no
/// branch bears it.
pub proof fn lemma_first_named(bs: Seq<BranchInfo>, name: Seq<char>, k: int)
    requires
        k == bs.len() || is_first_named(bs, name, k),
        k == bs.len() ==> forall|j: int| 0 <= j < bs.len() ==> bs[j].name@ != name,
    ensures
        first_named(bs, name) == if k == bs.len() {
            None::<int>
        } else {
            Some(k)
        },
{
    reveal(first_named);
    if k < bs.len() {
        let c = choose|c: int| is_first_named(bs, name, c);
        assert(is_first_named(bs, name, c));
        if c < k {
            assert(bs[c].name@ != name);
        }
        if c > k {
            assert(bs[k].name@ != name);
        }
    }
}

/// The branches once update `u` has arrived: a result for one branch goes
/// to the first branch of that name (none when no branch bears it); a
/// result for all goes to every branch.
pub open spec fn after_update(bs: Seq<BranchInfo>, u: BranchPRUpdate) -> Seq<BranchInfo> {
    match u.branch_name {
        Some(name) => match first_named(bs, name@) {
            Some(k) => bs.update(k, with_pr(bs[k], u.pr_result)),
            None => bs,
        },
        None => bs.map_values(|b: BranchInfo| with_pr(b, u.pr_result)),
    }
}

/// The branches once the updates `us` have arrived, in order.
pub open spec fn after_updates(bs: Seq<BranchInfo>, us: Seq<BranchPRUpdate>) -> Seq<BranchInfo>
    decreases us.len(),
{
    if us.len() == 0 {
        bs
    } else {
        after_update(after_updates(bs, us.drop_last()), us.last())
    }
}

/// A branch still waiting for its pull request once every result is in
/// has none.
pub open spec fn settled(b: BranchInfo) -> BranchInfo {
    if b.pr == Ok::<Option<PR>, GSWRError>(None) {
        with_pr(b, Err(GSWRError::PR_NOT_FOUND))
    } else {
        b
    }
}

/// Every branch as it stands once no more results will arrive.
pub open spec fn settle_all(bs: Seq<BranchInfo>) -> Seq<BranchInfo> {
    bs.map_values(|b: BranchInfo| settled(b))
}

impl App {
    /// Takes in one pull-request result (see `after_update`).
    pub fn apply_pr_update(&mut self, update: BranchPRUpdate)
        ensures
            final(self).local_branches@ == after_update(old(self).local_branches@, update),
            final(self).selected == old(self).selected,
            final(self).awaiting_prs == old(self).awaiting_prs,
            final(self).throbber_index == old(self).throbber_index,
            final(self).confirming_sync == old(self).confirming_sync,
            final(self).error_message == old(self).error_message,
    {
        let ghost u = update;
        let BranchPRUpdate { branch_name, pr_result } = update;
        match branch_name {
            Some(name) => {
                let mut k: usize = 0;
                while k < self.local_branches.len() && self.local_branches[k].name != name
                    invariant
                        k <= self.local_branches@.len(),
                        forall|j: int| 0 <= j < k ==> self.local_branches@[j].name@ != name@,
                    decreases self.local_branches@.len() - k,
                {
                    k = k + 1;
                }
                proof {
                    lemma_first_named(self.local_branches@, name@, k as int);
                }
                if k < self.local_branches.len() {
                    self.local_branches[k].pr = pr_result;
                    assert(self.local_branches@ =~= after_update(old(self).local_branches@, u));
                }
            },
            None => {
                let n = self.local_branches.len();
                let mut k: usize = 0;
                while k < n
                    invariant
                        n == self.local_branches@.len(),
                        n == old(self).local_branches@.len(),
                        k <= n,
                        forall|j: int| 0 <= j < k ==> self.local_branches@[j] == with_pr(
                            old(self).local_branches@[j],
                            pr_result,
                        ),
                        forall|j: int| k <= j < n ==> self.local_branches@[j] == old(self).local_branches@[j],
                        self.selected == old(self).selected,
                        self.awaiting_prs == old(self).awaiting_prs,
                        self.throbber_index == old(self).throbber_index,
                        self.confirming_sync == old(self).confirming_sync,
                        self.error_message == old(self).error_message,
                    decreases n - k,
                {
                    self.local_branches[k].pr = clone_pr_result(&pr_result);
                    k = k + 1;
                }
                assert(self.local_branches@ =~= after_update(old(self).local_branches@, u));
            },
        }
    }

    /// No more results will come: branches still waiting have no pull
    /// request.
    pub fn finish_pr_updates(&mut self)
        ensures
            final(self).local_branches@ == settle_all(old(self).local_branches@),
            !final(self).awaiting_prs,
            final(self).selected == old(self).selected,
            final(self).throbber_index == old(self).throbber_index,
            final(self).confirming_sync == old(self).confirming_sync,
            final(self).error_message == old(self).error_message,
    {
        let n = self.local_branches.len();
        let mut k: usize = 0;
        while k < n
            invariant
                n == self.local_branches@.len(),
                n == old(self).local_branches@.len(),
                k <= n,
                forall|j: int| 0 <= j < k ==> self.local_branches@[j] == settled(old(self).local_branches@[j]),
                forall|j: int| k <= j < n ==> self.local_branches@[j] == old(self).local_branches@[j],
                self.selected == old(self).selected,
                self.throbber_index == old(self).throbber_index,
                self.confirming_sync == old(self).confirming_sync,
                self.error_message == old(self).error_message,
            decreases n - k,
        {
            if let Ok(None) = &self.local_branches[k].pr {
                self.local_branches[k].pr = Err(GSWRError::PR_NOT_FOUND);
            }
            k = k + 1;
        }
        assert(self.local_branches@ =~= settle_all(old(self).local_branches@));
        self.awaiting_prs = false;
    }

    /// Takes in the results received since the last call, in arrival order,
    /// and whether the lookup has ended. Nothing changes once the lookup has
    /// ended before.
    pub fn drain_pr_updates(&mut self, updates: Vec<BranchPRUpdate>, disconnected: bool)
        ensures
            ({
                let after = after_updates(old(self).local_branches@, updates@);
                if !old(self).awaiting_prs {
                    final(self).local_branches@ == old(self).local_branches@
                        && final(self).awaiting_prs == old(self).awaiting_prs
                } else if disconnected {
                    final(self).local_branches@ == settle_all(after)
                        && !final(self).awaiting_prs
                } else {
                    final(self).local_branches@ == after && final(self).awaiting_prs
                }
            }),
            final(self).selected == old(self).selected,
            final(self).throbber_index == old(self).throbber_index,
            final(self).confirming_sync == old(self).confirming_sync,
            final(self).error_message == old(self).error_message,
    {
        if !self.awaiting_prs {
            return;
        }
        let ghost us = updates@;
        let mut rest = updates;
        let ghost mut i: int = 0;
        while rest.len() > 0
            invariant
                0 <= i <= us.len(),
                rest@ == us.subrange(i, us.len() as int),
                self.local_branches@ == after_updates(old(self).local_branches@, us.take(i)),
                self.awaiting_prs,
                self.selected == old(self).selected,
                self.throbber_index == old(self).throbber_index,
                self.confirming_sync == old(self).confirming_sync,
                self.error_message == old(self).error_message,
            decreases rest@.len(),
        {
            let u = rest.remove(0);
            proof {
                assert(us.take(i + 1).drop_last() =~= us.take(i));
                assert(us.take(i + 1).last() == u);
            }
            self.apply_pr_update(u);
            proof {
                i = i + 1;
            }
        }
        assert(us.take(us.len() as int) =~= us);
        if disconnected {
            self.finish_pr_updates();
        }
    }

    /// The work of one turn of the event loop before the screen is drawn:
    /// first the pull-request results received since the last turn are
    /// taken in (see `drain_pr_updates`), then the spinner moves one frame
    /// if results may still arrive after that.
    pub fn tick(&mut self, received: Vec<BranchPRUpdate>, disconnected: bool)
        ensures
            ({
                let after = after_updates(old(self).local_branches@, received@);
                if !old(self).awaiting_prs {
                    final(self).local_branches@ == old(self).local_branches@
                        && !final(self).awaiting_prs
                } else if disconnected {
                    final(self).local_branches@ == settle_all(after) && !final(self).awaiting_prs
                } else {
                    final(self).local_branches@ == after && final(self).awaiting_prs
                }
            }),
            final(self).throbber_index == if !final(self).awaiting_prs {
                old(self).throbber_index
            } else if old(self).throbber_index == i8::MAX {
                0
            } else {
                (old(self).throbber_index + 1) as i8
            },
            final(self).selected == old(self).selected,
            final(self).confirming_sync == old(self).confirming_sync,
            final(self).error_message == old(self).error_message,
    {
        self.drain_pr_updates(received, disconnected);
        self.advance_throbber();
    }

    /// One frame of the loading spinner passes while results may still
    /// arrive; the frame counter starts over after its largest value.
    pub fn advance_throbber(&mut self)
        ensures
            final(self).throbber_index == if !old(self).awaiting_prs {
                old(self).throbber_index
            } else if old(self).throbber_index == i8::MAX {
                0
            } else {
                (old(self).throbber_index + 1) as i8
            },
            final(self).local_branches@ == old(self).local_branches@,
            final(self).selected == old(self).selected,
            final(self).awaiting_prs == old(self).awaiting_prs,
            final(self).confirming_sync == old(self).confirming_sync,
            final(self).error_message == old(self).error_message,
    {
        if self.awaiting_prs {
            self.throbber_index = match self.throbber_index.checked_add(1) {
                Some(v) => v,
                None => 0,
            };
        }
    }
}

/// A key of the keyboard, as far as the switcher tells keys apart.
#[derive(Clone, Copy, Debug, PartialEq, Eq, Structural)]
pub enum Key {
    Up,
    Down,
    Enter,
    Char(char),
    Other,
}

/// A key press with the modifier keys held down.
#[derive(Clone, Copy, Debug, PartialEq, Eq, Structural)]
pub struct KeyPress {
    pub key: Key,
    pub shift: bool,
    pub control: bool,
    pub alt: bool,
    /// Any of Super, Hyper or Meta.
    pub other: bool,
}

/// Control and no other modifier is held.
pub open spec fn only_control(k: KeyPress) -> bool {
    k.control && !k.shift && !k.alt && !k.other
}

/// `q` with any modifiers, or Ctrl+C (Control alone).
pub open spec fn is_quit_key(k: KeyPress) -> bool {
    ||| k.key == Key::Char('q')
    ||| (k.key == Key::Char('c') && only_control(k))
}

/// Ctrl+S (Control alone).
pub open spec fn is_sync_key(k: KeyPress) -> bool {
    k.key == Key::Char('s') && only_control(k)
}

/// The key moves the selection down (when no prompt is open).
pub open spec fn moves_down(app: App, k: KeyPress) -> bool {
    !app.confirming_sync && (k.key == Key::Down || k.key == Key::Char('j'))
}

/// `app` with only the selected row changed.
pub open spec fn same_but_selection(new: App, old: App) -> bool {
    &&& new.local_branches@ == old.local_branches@
    &&& new.awaiting_prs == old.awaiting_prs
    &&& new.throbber_index == old.throbber_index
    &&& new.confirming_sync == old.confirming_sync
    &&& new.error_message == old.error_message
}

impl App {
    /// Acts on a key press and tells the caller what to do next.
    ///
    /// `q` and Ctrl+C leave. While the sync prompt is shown, Enter answers
    /// it in safe mode and Alt+Enter in unsafe mode (both close the prompt
    /// and hand over the branches to remove), `c` cancels it, and every
    /// other key does nothing: in particular the selection does not move
    /// while the prompt is open, so the answer applies to the list the prompt
    /// was opened on. Otherwise Up/`k` and Down/`j` move the selection, Enter
    /// confirms the selected row, `D` (Shift+D) asks to delete the selected
    /// branch, and Ctrl+S opens the sync prompt.
    pub fn handle_key(&mut self, key: KeyPress) -> (action: GSWRActions)
        requires
            moves_down(*old(self), key) ==> old(self).can_move_next(),
        ensures
            ({
                let o = *old(self);
                let n = *final(self);
                if is_quit_key(key) {
                    action == GSWRActions::Quit && n == o
                } else if o.confirming_sync {
                    if key.key == Key::Enter {
                        &&& action matches GSWRActions::SyncBranches(names) && names@ == sync_targets(
                            o.local_branches@,
                            !key.alt,
                        )
                        &&& n == App { confirming_sync: false, ..o }
                    } else if key.key == Key::Char('c') {
                        action == GSWRActions::Idle && n == App { confirming_sync: false, ..o }
                    } else {
                        action == GSWRActions::Idle && n == o
                    }
                } else if key.key == Key::Up || key.key == Key::Char('k') {
                    &&& action == GSWRActions::Idle
                    &&& n.selected == prev_row(o.selected, o.local_branches@.len())
                    &&& same_but_selection(n, o)
                } else if key.key == Key::Down || key.key == Key::Char('j') {
                    &&& action == GSWRActions::Idle
                    &&& n.selected == next_row(o.selected, o.local_branches@.len())
                    &&& same_but_selection(n, o)
                } else if key.key == Key::Enter {
                    &&& n == o
                    &&& ({
                        let bs = o.local_branches@;
                        let i = o.selected as int;
                        if i < bs.len() && !bs[i].is_current {
                            action == GSWRActions::Checkout(bs[i].name)
                        } else {
                            action == GSWRActions::Quit
                        }
                    })
                } else if key.key == Key::Char('D') {
                    let bs = o.local_branches@;
                    let i = o.selected as int;
                    &&& n.local_branches@ == o.local_branches@
                    &&& n.selected == o.selected
                    &&& n.awaiting_prs == o.awaiting_prs
                    &&& n.throbber_index == o.throbber_index
                    &&& n.confirming_sync == o.confirming_sync
                    &&& if i >= bs.len() {
                        &&& action == GSWRActions::Idle
                        &&& n.error_message matches Some(m) && m@ == "local branch not found"@
                    } else {
                        match selected_delete_verdict(bs[i]) {
                            Ok(()) => {
                                &&& action == GSWRActions::DeleteBranch(bs[i].name)
                                &&& n.error_message == o.error_message
                            },
                            Err(None) => {
                                &&& action == GSWRActions::Idle
                                &&& n.error_message == o.error_message
                            },
                            Err(Some(e)) => {
                                &&& action == GSWRActions::Idle
                                &&& n.error_message matches Some(m) && m@ == delete_error_text(e)
                            },
                        }
                    }
                } else if is_sync_key(key) {
                    action == GSWRActions::Idle && n == App { confirming_sync: true, ..o }
                } else {
                    action == GSWRActions::Idle && n == o
                }
            }),
    {
        let quit = match key.key {
            Key::Char('q') => true,
            Key::Char('c') => key.control && !key.shift && !key.alt && !key.other,
            _ => false,
        };
        if quit {
            return GSWRActions::Quit;
        }
        if self.confirming_sync {
            match key.key {
                Key::Enter => {
                    let names = self.sync(!key.alt);
                    self.confirming_sync = false;
                    GSWRActions::SyncBranches(names)
                },
                Key::Char('c') => {
                    self.confirming_sync = false;
                    GSWRActions::Idle
                },
                _ => GSWRActions::Idle,
            }
        } else {
            match key.key {
                Key::Up | Key::Char('k') => {
                    self.prev();
                    GSWRActions::Idle
                },
                Key::Down | Key::Char('j') => {
                    self.next();
                    GSWRActions::Idle
                },
                Key::Enter => self.confirm(),
                Key::Char('D') => match self.delete_selected_branch() {
                    Some(name) => GSWRActions::DeleteBranch(name),
                    None => GSWRActions::Idle,
                },
                Key::Char('s') => {
                    if key.control && !key.shift && !key.alt && !key.other {
                        self.confirming_sync = true;
                    }
                    GSWRActions::Idle
                },
                _ => GSWRActions::Idle,
            }
        }
    }
}

} // verus!
