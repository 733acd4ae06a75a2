use ascope::git::{branch_label, GitContext, HeadInfo};

#[test]
fn branch_head_uses_shorthand() {
    let h = HeadInfo::Branch { shorthand: Some("feature/x".to_string()) };
    assert_eq!(branch_label(&h), "feature/x");
    assert_eq!(branch_label(&HeadInfo::Branch { shorthand: None }), "unknown");
}

#[test]
fn detached_head_shows_seven_hex_digits() {
    let h = HeadInfo::Detached { target_hex: Some("0123456789abcdef".to_string()), shorthand: None };
    assert_eq!(branch_label(&h), "detached@0123456");
    let short = HeadInfo::Detached { target_hex: Some("abc".to_string()), shorthand: None };
    assert_eq!(branch_label(&short), "detached");
    let no_hex = HeadInfo::Detached { target_hex: None, shorthand: Some("HEAD".to_string()) };
    assert_eq!(branch_label(&no_hex), "HEAD");
}

#[test]
fn unborn_head_names_its_branch() {
    let h = HeadInfo::Unresolved { symbolic_target: Some("refs/heads/main".to_string()) };
    assert_eq!(branch_label(&h), "main");
    let other = HeadInfo::Unresolved { symbolic_target: Some("refs/tags/v1".to_string()) };
    assert_eq!(branch_label(&other), "refs/tags/v1");
    assert_eq!(branch_label(&HeadInfo::Unresolved { symbolic_target: None }), "main");
}

#[test]
fn bare_repository_has_no_dirty_files() {
    let h = HeadInfo::Unresolved { symbolic_target: Some("refs/heads/master".to_string()) };
    let ctx = GitContext::from_repository(&h, true, Some(5));
    assert_eq!(ctx.dirty_count, 0);
    assert_eq!(ctx.branch, "master");
}

#[test]
fn work_tree_counts_status_entries() {
    let h = HeadInfo::Branch { shorthand: Some("main".to_string()) };
    assert_eq!(GitContext::from_repository(&h, false, Some(1)).dirty_count, 1);
    assert_eq!(GitContext::from_repository(&h, false, None).dirty_count, 0);
}
