use gswr::app::App;
use gswr::branch::BranchInfo;
use gswr::github::{lookup_failed, missing_token, pr_updates, pulls_url, PRState, PullRequest};
use gswr::pr::{GSWRError, PRStatus, PR};
use gswr::ui::{
    branch_row, column_widths, commit_date_text, date_cell_text, footer, footer_spans, known_commit_time,
    pr_cell, spinner_frame,
    spinner_symbol, truncate, viewport_height, ColumnWidths, Footer, FooterContent, Tone,
};

#[test]
fn truncate_keeps_short_text() {
    assert_eq!(truncate("hello", 5), "hello");
    assert_eq!(truncate("hello", 10), "hello");
}

#[test]
fn truncate_cuts_long_text() {
    assert_eq!(truncate("hello world", 8), "hello…");
    assert_eq!(truncate("abcdef", 3), "…");
    assert_eq!(truncate("ééééé", 4), "é…");
}

#[test]
fn truncate_to_nothing() {
    assert_eq!(truncate("hello", 0), "");
}

#[test]
fn columns_for_a_wide_terminal() {
    let w = column_widths(105);
    assert_eq!(w, ColumnWidths { branch: 20, date: 12, status: 3, pr: 65 });
}

#[test]
fn columns_for_a_tiny_terminal() {
    assert_eq!(column_widths(3), ColumnWidths { branch: 0, date: 12, status: 3, pr: 0 });
    assert_eq!(column_widths(25), ColumnWidths { branch: 4, date: 12, status: 3, pr: 1 });
}

#[test]
fn spinner_frames() {
    assert_eq!(spinner_frame(0, 4), 0);
    assert_eq!(spinner_frame(6, 4), 2);
    assert_eq!(spinner_frame(-1, 4), 3);
    assert_eq!(spinner_frame(-128, 4), 0);
    assert_eq!(spinner_frame(127, 4), 3);
}

#[test]
fn pr_cells() {
    let c = pr_cell(&Ok(None), "│");
    assert_eq!((c.status.as_str(), c.text.as_str(), c.tone), ("", " │", Tone::Muted));
    let c = pr_cell(&Ok(Some(PR { title: "Fix".to_string(), status: PRStatus::MERGED })), "│");
    assert_eq!((c.status.as_str(), c.text.as_str(), c.tone), ("M", "Fix", Tone::Merged));
    let c = pr_cell(&Ok(Some(PR { title: "A".to_string(), status: PRStatus::OPENED })), "│");
    assert_eq!((c.status.as_str(), c.tone), ("O", Tone::Opened));
    let c = pr_cell(&Ok(Some(PR { title: "A".to_string(), status: PRStatus::CLOSED })), "│");
    assert_eq!((c.status.as_str(), c.tone), ("C", Tone::Closed));
    let c = pr_cell(&Err(GSWRError::PR_NOT_FOUND), "│");
    assert_eq!((c.status.as_str(), c.text.as_str(), c.tone), ("", "No PR", Tone::Muted));
    let c = pr_cell(&Err(GSWRError::Custom("bad".to_string())), "│");
    assert_eq!((c.text.as_str(), c.tone), ("bad", Tone::Error));
}

#[test]
fn rows_are_labelled_and_cut() {
    let w = ColumnWidths { branch: 8, date: 12, status: 3, pr: 6 };
    let mut b = BranchInfo::new("feature-x".to_string(), true, None, None);
    b.pr = Ok(Some(PR { title: "A long title".to_string(), status: PRStatus::OPENED }));
    let r = branch_row(&b, "2024-01-02", "│", w);
    assert_eq!(r.name, " ● fe…");
    assert_eq!(r.date, "2024-01-02");
    assert_eq!(r.status, "O");
    assert_eq!(r.pr, "A l…");
    assert_eq!(r.name_tone, Tone::Current);
    assert_eq!(r.pr_tone, Tone::Opened);
    let b = BranchInfo::new("ab".to_string(), false, None, None);
    let r = branch_row(&b, "---", "│", w);
    assert_eq!(r.name, "   ab");
    assert_eq!(r.pr, " │");
    assert_eq!(r.name_tone, Tone::Text);
}

#[test]
fn viewport_heights() {
    assert_eq!(viewport_height(0), 6);
    assert_eq!(viewport_height(2), 6);
    assert_eq!(viewport_height(10), 14);
    assert_eq!(viewport_height(16), 20);
    assert_eq!(viewport_height(100), 20);
}

#[test]
fn footer_prefers_error_then_prompt_then_help() {
    let mut b = BranchInfo::new("a".to_string(), false, None, Some("Add thing".to_string()));
    b.pr = Ok(None);
    let mut a = App::new(vec![b, BranchInfo::new("b".to_string(), false, None, Some(String::new()))], false);
    assert!(matches!(footer(&a), FooterContent::Help(Some(m)) if m == "Add thing"));
    a.selected = 1;
    assert!(matches!(footer(&a), FooterContent::Help(None)));
    a.confirming_sync = true;
    assert!(matches!(footer(&a), FooterContent::SyncPrompt));
    a.error_message = Some("oops".to_string());
    assert!(matches!(footer(&a), FooterContent::Error(m) if m == "oops"));
}

#[test]
fn footer_lines() {
    let h = Footer::helper();
    let texts: Vec<&str> = h.iter().map(|s| s.text.as_str()).collect();
    assert_eq!(texts.concat(), " ↑↓ jk navigate  ↵ switch  q quit  ^s sync  ⇧D delete");
    assert_eq!(h[1].tone, Tone::Accent);
    let s = Footer::sync();
    let texts: Vec<&str> = s.iter().map(|s| s.text.as_str()).collect();
    assert_eq!(
        texts.concat(),
        " ⚠️ All local branches linked to a merged (M) or closed (C) PR will be deleted. Press ↵ to confirm. Press c to cancel."
    );
    assert!(s[2].bold && s[2].tone == Tone::Merged);
}

#[test]
fn pull_requests_become_updates() {
    let prs = vec![
        PullRequest { title: "one".to_string(), head_ref: "a".to_string(), state: PRState::OPEN, merged_at: None },
        PullRequest {
            title: "two".to_string(),
            head_ref: "b".to_string(),
            state: PRState::CLOSED,
            merged_at: Some("2024-01-01T00:00:00Z".to_string()),
        },
        PullRequest { title: "three".to_string(), head_ref: "c".to_string(), state: PRState::CLOSED, merged_at: None },
    ];
    let us = pr_updates(prs);
    let got: Vec<(String, PRStatus)> = us
        .into_iter()
        .map(|u| match u.pr_result {
            Ok(Some(p)) => (u.branch_name.unwrap(), p.status),
            _ => panic!("expected a pull request"),
        })
        .collect();
    assert_eq!(
        got,
        vec![
            ("a".to_string(), PRStatus::OPENED),
            ("b".to_string(), PRStatus::MERGED),
            ("c".to_string(), PRStatus::CLOSED)
        ]
    );
}

#[test]
fn lookup_errors_reach_all_branches() {
    let u = missing_token("environment variable not found");
    assert!(u.branch_name.is_none());
    assert!(matches!(u.pr_result, Err(GSWRError::Custom(m)) if m == "GITHUB_TOKEN environment variable not found"));
    let u = lookup_failed("timeout".to_string());
    assert!(matches!(u.pr_result, Err(GSWRError::Custom(m)) if m == "timeout"));
}

#[test]
fn api_address() {
    assert_eq!(
        pulls_url("lethib", "gswr"),
        "https://api.github.com/repos/lethib/gswr/pulls?state=all&per_page=100"
    );
}

#[test]
fn spinner_symbols() {
    assert_eq!(spinner_symbol(0), "│");
    assert_eq!(spinner_symbol(1), "╱");
    assert_eq!(spinner_symbol(2), "─");
    assert_eq!(spinner_symbol(7), "╲");
    assert_eq!(spinner_symbol(-1), "╲");
}

#[test]
fn date_cells() {
    assert_eq!(date_cell_text(None), "---");
    assert_eq!(date_cell_text(Some("2024-05-06".to_string())), "2024-05-06");
    assert_eq!(commit_date_text(None), "---");
    let d = commit_date_text(Some(1_700_000_000));
    assert!(d == "2023-11-14" || d == "2023-11-15", "{}", d);
    assert!(commit_date_text(Some(-8_000_000_000_000)).len() >= 10);
    assert_eq!(commit_date_text(Some(i64::MAX)), "---");
}

#[test]
fn footer_line_pieces() {
    let b = BranchInfo::new("a".to_string(), false, None, Some("Add thing".to_string()));
    let mut a = App::new(vec![b, BranchInfo::new("b".to_string(), false, None, None)], false);
    let spans = footer_spans(&a);
    let n = spans.len();
    assert_eq!(n, 13);
    assert_eq!(spans[n - 2].text, "   Last commit: ");
    assert_eq!(spans[n - 2].tone, Tone::Muted);
    assert_eq!(spans[n - 1].text, "Add thing");
    assert!(spans[n - 1].italic && spans[n - 1].tone == Tone::Text);
    a.selected = 1;
    assert_eq!(footer_spans(&a).len(), 11);
    a.confirming_sync = true;
    assert_eq!(footer_spans(&a).len(), 10);
    a.error_message = Some("oops".to_string());
    let spans = footer_spans(&a);
    assert_eq!(spans.len(), 2);
    assert_eq!(spans[0].text, " ");
    assert_eq!(spans[0].tone, Tone::Plain);
    assert_eq!(spans[1].text, "oops");
    assert_eq!(spans[1].tone, Tone::Error);
}

#[test]
fn commit_times_without_local_day_are_dropped() {
    assert_eq!(known_commit_time(1_700_000_000), Some(1_700_000_000));
    assert_eq!(known_commit_time(i64::MAX), None);
    assert_eq!(known_commit_time(i64::MIN), None);
}

#[test]
fn dates_follow_each_commit_time() {
    let a = commit_date_text(Some(0));
    let b = commit_date_text(Some(1_000_000_000));
    assert!(a == "1970-01-01" || a == "1969-12-31", "{}", a);
    assert!(b == "2001-09-09" || b == "2001-09-08", "{}", b);
}
