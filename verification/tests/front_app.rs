use openless::front_app::{
    current_front_app, split_front_app_label, split_front_app_opt, FrontApp,
};
use openless::platform::TargetOs;

fn nothing() -> FrontApp {
    FrontApp { name: None, bundle_id: None }
}

#[test]
fn macos_label_splits_into_name_and_bundle() {
    let split = split_front_app_label("Desktop (com.anthropic.claudefordesktop)", true);
    assert_eq!(split.name.as_deref(), Some("Desktop"));
    assert_eq!(split.bundle_id.as_deref(), Some("com.anthropic.claudefordesktop"));
}

#[test]
fn app_names_containing_spaces_and_parens_still_split_on_the_last_group() {
    let split = split_front_app_label("Visual Studio Code (com.microsoft.VSCode)", true);
    assert_eq!(split.name.as_deref(), Some("Visual Studio Code"));
    assert_eq!(split.bundle_id.as_deref(), Some("com.microsoft.VSCode"));
}

#[test]
fn window_titles_are_never_split_outside_macos() {
    for title in [
        "未命名文档 (未保存)",
        "report.txt (~/Documents)",
        "Inbox (12)",
        "script.py (C:\\dir\\script.py)",
        "会议 (meet.example.com)",
        "卸载 (2.4.1)",
    ] {
        let split = split_front_app_label(title, false);
        assert_eq!(split.name.as_deref(), Some(title), "{title} should stay intact");
        assert_eq!(split.bundle_id, None, "{title} has no bundle id");
    }
}

#[test]
fn bare_names_pass_through() {
    let split = split_front_app_label("Terminal", true);
    assert_eq!(split.name.as_deref(), Some("Terminal"));
    assert_eq!(split.bundle_id, None);
}

#[test]
fn blank_input_yields_nothing() {
    assert_eq!(split_front_app_label("", true), nothing());
    assert_eq!(split_front_app_label("   ", true), nothing());
    assert_eq!(split_front_app_label("", false), nothing());
    assert_eq!(split_front_app_label("   ", false), nothing());
    assert_eq!(split_front_app_opt(None, TargetOs::Macos), nothing());
    assert_eq!(split_front_app_opt(None, TargetOs::Windows), nothing());
}

#[test]
fn a_group_that_is_no_bundle_id_belongs_to_the_name() {
    for label in ["Notes (draft)", "Notes (com.example notes)", "Notes (com.example) x", "(com.x.y)"] {
        let split = split_front_app_label(label, true);
        assert_eq!(split.name.as_deref(), Some(label));
        assert_eq!(split.bundle_id, None);
    }
}

#[test]
fn a_label_splits_back_into_what_it_was_made_of() {
    let label = current_front_app(Some("Safari".to_string()), Some("com.apple.Safari".to_string()))
        .unwrap();
    assert_eq!(label, "Safari (com.apple.Safari)");
    let split = split_front_app_opt(Some(&label), TargetOs::Macos);
    assert_eq!(split.name.as_deref(), Some("Safari"));
    assert_eq!(split.bundle_id.as_deref(), Some("com.apple.Safari"));
    let kept = split_front_app_opt(Some(&label), TargetOs::Linux);
    assert_eq!(kept.name.as_deref(), Some("Safari (com.apple.Safari)"));
    assert_eq!(kept.bundle_id, None);
}

#[test]
fn a_label_needs_neither_part() {
    assert_eq!(
        current_front_app(Some("Title".to_string()), None),
        Some("Title".to_string())
    );
    assert_eq!(
        current_front_app(None, Some("com.apple.Safari".to_string())),
        Some("com.apple.Safari".to_string())
    );
    assert_eq!(current_front_app(None, None), None);
}
