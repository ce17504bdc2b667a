use openless::routing::{translation_effective, translation_request_accepted, DictationPhase};
use openless::types::{effective_pipeline_mode, PipelineMode};

fn langs(list: &[&str]) -> Vec<String> {
    list.iter().map(|s| s.to_string()).collect()
}

#[test]
fn requires_the_modifier() {
    assert!(!translation_effective(false, "English", &langs(&["简体中文"])));
}

#[test]
fn unset_target_language_is_not_translation() {
    assert!(!translation_effective(true, "", &langs(&["简体中文"])));
    assert!(!translation_effective(true, "   ", &langs(&["简体中文"])));
}

#[test]
fn target_equal_to_the_only_working_language_is_a_no_op() {
    assert!(!translation_effective(true, "简体中文", &langs(&["简体中文"])));
    assert!(!translation_effective(true, " 简体中文 ", &langs(&["简体中文"])));
}

#[test]
fn simplified_to_traditional_still_translates() {
    assert!(translation_effective(true, "繁体中文", &langs(&["简体中文"])));
}

#[test]
fn multiple_working_languages_are_never_blocked() {
    assert!(translation_effective(true, "English", &langs(&["简体中文", "English"])));
}

#[test]
fn empty_working_languages_still_translates() {
    assert!(translation_effective(true, "English", &[]));
}

#[test]
fn translation_can_be_asked_for_until_the_recording_ends() {
    assert!(!translation_request_accepted(DictationPhase::Idle));
    assert!(translation_request_accepted(DictationPhase::Starting));
    assert!(translation_request_accepted(DictationPhase::Recording));
    assert!(!translation_request_accepted(DictationPhase::Processing));
}

#[test]
fn multimodal_mode_requires_the_experiment_switch() {
    assert_eq!(
        effective_pipeline_mode(false, PipelineMode::Traditional),
        PipelineMode::Traditional
    );
    assert_eq!(
        effective_pipeline_mode(false, PipelineMode::Multimodal),
        PipelineMode::Traditional
    );
    assert_eq!(
        effective_pipeline_mode(true, PipelineMode::Traditional),
        PipelineMode::Traditional
    );
    assert_eq!(
        effective_pipeline_mode(true, PipelineMode::Multimodal),
        PipelineMode::Multimodal
    );
}
