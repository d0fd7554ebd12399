use gswr::app::{App, BranchPRUpdate, GSWRActions, Key, KeyPress};
use gswr::branch::BranchInfo;
use gswr::pr::{GSWRError, PRStatus, PR};

fn branch(name: &str, current: bool) -> BranchInfo {
    BranchInfo::new(name.to_string(), current, None, None)
}

fn app(names: &[(&str, bool)]) -> App {
    App::new(names.iter().map(|(n, c)| branch(n, *c)).collect(), true)
}

fn key(k: Key) -> KeyPress {
    KeyPress { key: k, shift: false, control: false, alt: false, other: false }
}

fn ctrl(c: char) -> KeyPress {
    KeyPress { key: Key::Char(c), shift: false, control: true, alt: false, other: false }
}

fn found(title: &str, status: PRStatus) -> Result<Option<PR>, GSWRError> {
    Ok(Some(PR { title: title.to_string(), status }))
}

fn update(name: &str, status: PRStatus) -> BranchPRUpdate {
    BranchPRUpdate { branch_name: Some(name.to_string()), pr_result: found(name, status) }
}

#[test]
fn new_app_starts_on_first_row() {
    let a = app(&[("a", false)]);
    assert_eq!(a.selected, 0);
    assert!(a.awaiting_prs);
    assert!(!a.confirming_sync);
    assert!(a.error_message.is_none());
    assert_eq!(a.throbber_index, 0);
}

#[test]
fn next_wraps_around() {
    let mut a = app(&[("a", false), ("b", false), ("c", false)]);
    a.next();
    assert_eq!(a.selected, 1);
    a.next();
    assert_eq!(a.selected, 2);
    a.next();
    assert_eq!(a.selected, 0);
}

#[test]
fn prev_stops_at_first_row() {
    let mut a = app(&[("a", false), ("b", false)]);
    a.prev();
    assert_eq!(a.selected, 0);
    a.selected = 1;
    a.prev();
    assert_eq!(a.selected, 0);
}

#[test]
fn moving_in_empty_list_does_nothing() {
    let mut a = app(&[]);
    a.next();
    a.prev();
    assert_eq!(a.selected, 0);
}

#[test]
fn confirm_checks_out_other_branch() {
    let mut a = app(&[("cur", true), ("other", false)]);
    assert!(matches!(a.confirm(), GSWRActions::Quit));
    a.selected = 1;
    assert!(matches!(a.confirm(), GSWRActions::Checkout(n) if n == "other"));
    a.selected = 5;
    assert!(matches!(a.confirm(), GSWRActions::Quit));
}

#[test]
fn update_goes_to_first_branch_of_that_name() {
    let mut a = app(&[("x", false), ("y", false), ("y", false)]);
    a.apply_pr_update(update("y", PRStatus::MERGED));
    assert!(matches!(a.local_branches[0].pr, Ok(None)));
    assert!(matches!(&a.local_branches[1].pr, Ok(Some(p)) if p.status == PRStatus::MERGED));
    assert!(matches!(a.local_branches[2].pr, Ok(None)));
}

#[test]
fn update_for_unknown_branch_changes_nothing() {
    let mut a = app(&[("x", false)]);
    a.apply_pr_update(update("zzz", PRStatus::OPENED));
    assert!(matches!(a.local_branches[0].pr, Ok(None)));
}

#[test]
fn failed_lookup_reaches_every_branch() {
    let mut a = app(&[("x", false), ("y", true)]);
    a.apply_pr_update(BranchPRUpdate {
        branch_name: None,
        pr_result: Err(GSWRError::Custom("offline".to_string())),
    });
    for b in &a.local_branches {
        assert!(matches!(&b.pr, Err(GSWRError::Custom(m)) if m == "offline"));
    }
}

#[test]
fn finished_lookup_leaves_no_branch_pending() {
    let mut a = app(&[("x", false), ("y", false)]);
    a.drain_pr_updates(vec![update("x", PRStatus::OPENED)], true);
    assert!(!a.awaiting_prs);
    assert!(matches!(&a.local_branches[0].pr, Ok(Some(p)) if p.status == PRStatus::OPENED));
    assert!(matches!(a.local_branches[1].pr, Err(GSWRError::PR_NOT_FOUND)));
}

#[test]
fn updates_apply_in_order() {
    let mut a = app(&[("x", false)]);
    a.drain_pr_updates(vec![update("x", PRStatus::OPENED), update("x", PRStatus::CLOSED)], false);
    assert!(a.awaiting_prs);
    assert!(matches!(&a.local_branches[0].pr, Ok(Some(p)) if p.status == PRStatus::CLOSED));
}

#[test]
fn nothing_arrives_after_lookup_ended() {
    let mut a = App::new(vec![branch("x", false)], false);
    a.drain_pr_updates(vec![update("x", PRStatus::OPENED)], true);
    assert!(matches!(a.local_branches[0].pr, Ok(None)));
}

#[test]
fn spinner_turns_only_while_waiting() {
    let mut a = app(&[]);
    a.advance_throbber();
    assert_eq!(a.throbber_index, 1);
    a.throbber_index = i8::MAX;
    a.advance_throbber();
    assert_eq!(a.throbber_index, 0);
    a.awaiting_prs = false;
    a.advance_throbber();
    assert_eq!(a.throbber_index, 0);
}

fn sync_fixture() -> App {
    let mut a = app(&[
        ("main", false),
        ("cur", true),
        ("merged", false),
        ("closed", false),
        ("open", false),
        ("nopr", false),
        ("pending", false),
        ("failed", false),
    ]);
    a.local_branches[0].pr = found("m", PRStatus::MERGED);
    a.local_branches[1].pr = found("c", PRStatus::MERGED);
    a.local_branches[2].pr = found("g", PRStatus::MERGED);
    a.local_branches[3].pr = found("d", PRStatus::CLOSED);
    a.local_branches[4].pr = found("o", PRStatus::OPENED);
    a.local_branches[5].pr = Err(GSWRError::PR_NOT_FOUND);
    a.local_branches[7].pr = Err(GSWRError::Custom("x".to_string()));
    a
}

#[test]
fn safe_sync_removes_merged_and_closed_only() {
    let a = sync_fixture();
    assert_eq!(a.sync(true), vec!["merged".to_string(), "closed".to_string()]);
}

#[test]
fn unsafe_sync_also_removes_branches_without_pr() {
    let a = sync_fixture();
    assert_eq!(
        a.sync(false),
        vec!["merged".to_string(), "closed".to_string(), "nopr".to_string()]
    );
}

#[test]
fn successful_deletion_removes_branch() {
    let mut a = app(&[("a", false), ("b", false), ("a", false)]);
    a.record_deletion(&"a".to_string(), Ok(()));
    let names: Vec<&str> = a.local_branches.iter().map(|b| b.name.as_str()).collect();
    assert_eq!(names, vec!["b"]);
    assert!(a.error_message.is_none());
}

#[test]
fn failed_deletion_shows_error() {
    let mut a = app(&[("a", false)]);
    a.record_deletion(&"a".to_string(), Err("locked".to_string()));
    assert_eq!(a.local_branches.len(), 1);
    assert_eq!(a.error_message.as_deref(), Some("locked"));
}

#[test]
fn delete_selected_reports_missing_row() {
    let mut a = app(&[]);
    assert!(a.delete_selected_branch().is_none());
    assert_eq!(a.error_message.as_deref(), Some("local branch not found"));
}

#[test]
fn delete_selected_refuses_branch_without_pr() {
    let mut a = app(&[("feat", false)]);
    a.local_branches[0].pr = Err(GSWRError::PR_NOT_FOUND);
    assert!(a.delete_selected_branch().is_none());
    assert_eq!(a.error_message.as_deref(), Some("cannot delete branch not linked to a PR"));
}

#[test]
fn delete_selected_hands_over_merged_branch() {
    let mut a = app(&[("feat", false)]);
    a.local_branches[0].pr = found("t", PRStatus::MERGED);
    assert_eq!(a.delete_selected_branch(), Some("feat".to_string()));
    assert!(a.error_message.is_none());
}

#[test]
fn keys_quit() {
    let mut a = app(&[("a", false)]);
    assert!(matches!(a.handle_key(key(Key::Char('q'))), GSWRActions::Quit));
    assert!(matches!(a.handle_key(ctrl('c')), GSWRActions::Quit));
    a.confirming_sync = true;
    assert!(matches!(a.handle_key(key(Key::Char('q'))), GSWRActions::Quit));
    assert!(a.confirming_sync);
}

#[test]
fn keys_move_selection() {
    let mut a = app(&[("a", false), ("b", false)]);
    assert!(matches!(a.handle_key(key(Key::Down)), GSWRActions::Idle));
    assert_eq!(a.selected, 1);
    a.handle_key(key(Key::Char('k')));
    assert_eq!(a.selected, 0);
    a.handle_key(key(Key::Char('j')));
    assert_eq!(a.selected, 1);
    a.handle_key(key(Key::Up));
    assert_eq!(a.selected, 0);
}

#[test]
fn enter_switches_branch() {
    let mut a = app(&[("cur", true), ("b", false)]);
    a.handle_key(key(Key::Down));
    assert!(matches!(a.handle_key(key(Key::Enter)), GSWRActions::Checkout(n) if n == "b"));
}

#[test]
fn shift_d_asks_to_delete() {
    let mut a = app(&[("cur", true), ("b", false)]);
    let shift_d = KeyPress { key: Key::Char('D'), shift: true, control: false, alt: false, other: false };
    assert!(matches!(a.handle_key(shift_d), GSWRActions::Idle));
    assert_eq!(a.error_message.as_deref(), Some("cannot delete current branch"));
    a.selected = 1;
    a.local_branches[1].pr = found("t", PRStatus::CLOSED);
    assert!(matches!(a.handle_key(shift_d), GSWRActions::DeleteBranch(n) if n == "b"));
}

#[test]
fn sync_prompt_flow() {
    let mut a = sync_fixture();
    assert!(matches!(a.handle_key(ctrl('s')), GSWRActions::Idle));
    assert!(a.confirming_sync);
    assert!(matches!(a.handle_key(key(Key::Down)), GSWRActions::Idle));
    assert_eq!(a.selected, 0);
    assert!(matches!(a.handle_key(key(Key::Char('c'))), GSWRActions::Idle));
    assert!(!a.confirming_sync);
    a.handle_key(ctrl('s'));
    match a.handle_key(key(Key::Enter)) {
        GSWRActions::SyncBranches(names) => assert_eq!(names, vec!["merged".to_string(), "closed".to_string()]),
        _ => panic!("expected sync"),
    }
    assert!(!a.confirming_sync);
    a.handle_key(ctrl('s'));
    let alt_enter = KeyPress { key: Key::Enter, shift: false, control: false, alt: true, other: false };
    match a.handle_key(alt_enter) {
        GSWRActions::SyncBranches(names) => assert_eq!(names.len(), 3),
        _ => panic!("expected sync"),
    }
}

#[test]
fn plain_s_does_not_open_prompt() {
    let mut a = app(&[("a", false)]);
    a.handle_key(key(Key::Char('s')));
    assert!(!a.confirming_sync);
}

#[test]
fn delete_selected_is_silent_after_failed_lookup() {
    let mut a = app(&[("feat", false)]);
    a.local_branches[0].pr = Err(GSWRError::Custom("offline".to_string()));
    assert!(a.delete_selected_branch().is_none());
    assert!(a.error_message.is_none());
    a.error_message = Some("earlier".to_string());
    assert!(a.delete_selected_branch().is_none());
    assert_eq!(a.error_message.as_deref(), Some("earlier"));
}

#[test]
fn delete_selected_checks_pr_before_current_and_main() {
    let mut a = app(&[("cur", true), ("main", false)]);
    a.local_branches[0].pr = found("t", PRStatus::OPENED);
    assert!(a.delete_selected_branch().is_none());
    assert_eq!(a.error_message.as_deref(), Some("cannot delete branch linked to an opened PR"));
    a.selected = 1;
    a.local_branches[1].pr = Err(GSWRError::PR_NOT_FOUND);
    assert!(a.delete_selected_branch().is_none());
    assert_eq!(a.error_message.as_deref(), Some("cannot delete branch not linked to a PR"));
    a.local_branches[1].pr = found("t", PRStatus::MERGED);
    assert!(a.delete_selected_branch().is_none());
    assert_eq!(a.error_message.as_deref(), Some("cannot delete main branch"));
}

#[test]
fn delete_selected_hands_over_pending_branch() {
    let mut a = app(&[("feat", false)]);
    assert_eq!(a.delete_selected_branch(), Some("feat".to_string()));
}

#[test]
fn sync_stops_at_first_failure() {
    let mut a = app(&[("a", false), ("b", false), ("c", false)]);
    let left = a.continue_sync(&"a".to_string(), Ok(()), vec!["b".to_string(), "c".to_string()]);
    assert_eq!(left, vec!["b".to_string(), "c".to_string()]);
    assert_eq!(a.local_branches.len(), 2);
    let left = a.continue_sync(&"b".to_string(), Err("locked".to_string()), vec!["c".to_string()]);
    assert!(left.is_empty());
    assert_eq!(a.local_branches.len(), 2);
    assert_eq!(a.error_message.as_deref(), Some("locked"));
}

#[test]
fn tick_drains_then_turns_spinner() {
    let mut a = app(&[("x", false)]);
    a.tick(vec![update("x", PRStatus::OPENED)], false);
    assert_eq!(a.throbber_index, 1);
    assert!(matches!(&a.local_branches[0].pr, Ok(Some(p)) if p.status == PRStatus::OPENED));
    a.tick(Vec::new(), true);
    assert!(!a.awaiting_prs);
    assert_eq!(a.throbber_index, 1);
    a.tick(Vec::new(), false);
    assert_eq!(a.throbber_index, 1);
}

#[test]
fn super_c_does_not_quit() {
    let mut a = app(&[("a", false)]);
    let super_c = KeyPress { key: Key::Char('c'), shift: false, control: true, alt: false, other: true };
    assert!(matches!(a.handle_key(super_c), GSWRActions::Idle));
    let super_s = KeyPress { key: Key::Char('s'), shift: false, control: true, alt: false, other: true };
    a.handle_key(super_s);
    assert!(!a.confirming_sync);
}
