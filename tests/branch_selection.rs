use repo_sync::refs::{malformed_ref_lines, select_latest_branch};

#[test]
fn selects_first_branch_skipping_head() {
    let listing = String::from("origin/main|2024-01-01\norigin/HEAD|2024-01-01\norigin/dev|2023-12-01\n");
    let entry = select_latest_branch(&listing).expect("a branch");
    assert_eq!(entry.short_name, "main");
    assert_eq!(entry.commit_date, "2024-01-01");
}

#[test]
fn head_first_is_skipped() {
    let listing = String::from("origin/HEAD|2024-02-01\norigin/dev|2023-12-01");
    let entry = select_latest_branch(&listing).expect("a branch");
    assert_eq!(entry.short_name, "dev");
    assert_eq!(entry.commit_date, "2023-12-01");
}

#[test]
fn empty_listing_selects_nothing() {
    assert!(select_latest_branch(&String::new()).is_none());
}

#[test]
fn only_head_selects_nothing() {
    assert!(select_latest_branch(&String::from("origin/HEAD|2024-01-01\n")).is_none());
}

#[test]
fn malformed_lines_are_skipped() {
    let listing = String::from("\nupstream/main|2024-03-01\norigin/nobar\n\norigin/feature/x|Mon Jan 1 2024\n");
    let entry = select_latest_branch(&listing).expect("a branch");
    assert_eq!(entry.short_name, "feature/x");
    assert_eq!(entry.commit_date, "Mon Jan 1 2024");
}

#[test]
fn date_keeps_later_bars() {
    let entry = select_latest_branch(&String::from("origin/héad|a|b")).expect("a branch");
    assert_eq!(entry.short_name, "héad");
    assert_eq!(entry.commit_date, "a|b");
}

#[test]
fn empty_branch_name_after_prefix() {
    let entry = select_latest_branch(&String::from("origin/|2024-01-01")).expect("a branch");
    assert_eq!(entry.short_name, "");
}

#[test]
fn counts_malformed_lines() {
    let listing = String::from("\nupstream/main|2024-03-01\norigin/nobar\n\norigin/feature/x|d\norigin/HEAD|d\n");
    assert_eq!(malformed_ref_lines(&listing), 2);
    assert_eq!(malformed_ref_lines(&String::new()), 0);
    assert_eq!(malformed_ref_lines(&String::from("origin/main|d")), 0);
    assert_eq!(malformed_ref_lines(&String::from("main|d")), 1);
}
