use ghk::gate::{
    change_summary, commit_message, default_message, preview, risk_notice, Preview, CHANGES_SHOWN,
    CONSENT_DEFAULT, FINDINGS_SHOWN,
};

fn numbered(n: usize) -> Vec<String> {
    (0..n).map(|i| format!("file{}.txt", i)).collect()
}

#[test]
fn default_message_is_update() {
    assert_eq!(default_message(), "Update");
}

#[test]
fn empty_answer_gives_the_default_message() {
    assert_eq!(commit_message(String::new()), "Update");
}

#[test]
fn answer_is_kept_verbatim() {
    assert_eq!(commit_message("Fix the parser".to_string()), "Fix the parser");
    assert_eq!(commit_message("  padded  ".to_string()), "  padded  ");
    assert_eq!(commit_message(" ".to_string()), " ");
    assert_eq!(commit_message("Update".to_string()), "Update");
    assert_eq!(commit_message("исправление".to_string()), "исправление");
}

#[test]
fn consent_defaults_to_decline() {
    assert!(!CONSENT_DEFAULT);
}

#[test]
fn caps_are_five_findings_and_ten_changes() {
    assert_eq!(FINDINGS_SHOWN, 5);
    assert_eq!(CHANGES_SHOWN, 10);
}

#[test]
fn short_list_is_shown_whole() {
    let items = numbered(3);
    assert_eq!(preview(&items, 5), Preview { shown: items.clone(), hidden: 0 });
}

#[test]
fn list_at_the_cap_is_shown_whole() {
    let items = numbered(5);
    assert_eq!(preview(&items, 5), Preview { shown: items.clone(), hidden: 0 });
}

#[test]
fn long_list_is_cut_and_the_rest_counted() {
    let items = numbered(12);
    let cut = preview(&items, 5);
    assert_eq!(cut.shown, items[..5].to_vec());
    assert_eq!(cut.hidden, 7);
}

#[test]
fn one_over_the_cap_hides_one() {
    let items = numbered(6);
    let cut = preview(&items, 5);
    assert_eq!(cut.shown, items[..5].to_vec());
    assert_eq!(cut.hidden, 1);
}

#[test]
fn empty_list_has_empty_preview() {
    assert_eq!(preview(&Vec::new(), 5), Preview { shown: Vec::new(), hidden: 0 });
}

#[test]
fn zero_cap_hides_everything() {
    let items = numbered(4);
    assert_eq!(preview(&items, 0), Preview { shown: Vec::new(), hidden: 4 });
}

#[test]
fn preview_accounts_for_every_entry() {
    for n in 0..20 {
        for cap in 0..8 {
            let items = numbered(n);
            let cut = preview(&items, cap);
            assert_eq!(cut.shown.len() + cut.hidden, n);
            assert!(cut.shown.len() <= cap);
            assert_eq!(cut.shown[..], items[..cut.shown.len()]);
        }
    }
}

#[test]
fn risk_notice_lists_at_most_five_findings() {
    let findings = numbered(8);
    let notice = risk_notice(&findings, true);
    assert_eq!(notice.findings.shown, findings[..5].to_vec());
    assert_eq!(notice.findings.hidden, 3);
    assert!(!notice.suggest_ignore_rules);
}

#[test]
fn risk_notice_suggests_ignore_rules_when_there_are_none() {
    let findings = vec![".env".to_string()];
    let notice = risk_notice(&findings, false);
    assert_eq!(notice.findings, Preview { shown: findings.clone(), hidden: 0 });
    assert!(notice.suggest_ignore_rules);
}

#[test]
fn change_summary_lists_at_most_ten_changes() {
    let changes = numbered(25);
    let summary = change_summary(&changes);
    assert_eq!(summary.shown, changes[..10].to_vec());
    assert_eq!(summary.hidden, 15);
    let few = numbered(10);
    assert_eq!(change_summary(&few), Preview { shown: few.clone(), hidden: 0 });
}
