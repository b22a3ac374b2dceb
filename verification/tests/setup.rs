use sound_processor::selection::{
    audio_source_plan, display_plan, AudioSourceKind, DisplayKind, SelectionError, SetupPlan,
};
use sound_processor::setup::{Phase, Role, SetupEvent, SetupStage, SourceSetup};

/// Drives a bring-up to its end, answering each action from the outcomes
/// given for the primary and the backup (created, passes self-test).
fn drive<K: Copy>(plan: SetupPlan<K>, primary: (bool, bool), backup: (bool, bool)) -> SetupStage {
    let mut setup = SourceSetup::new(plan);
    loop {
        let ok = match setup.stage() {
            SetupStage::Create(Role::Primary) => primary.0,
            SetupStage::SelfTest(Role::Primary) => primary.1,
            SetupStage::Create(Role::Backup) => backup.0,
            SetupStage::SelfTest(Role::Backup) => backup.1,
            finished => return finished,
        };
        setup.advance(if ok { SetupEvent::Succeeded } else { SetupEvent::Failed });
    }
}

fn is_ok(stage: SetupStage) -> bool {
    matches!(stage, SetupStage::Ready(_))
}

fn fallback() -> SetupPlan<AudioSourceKind> {
    SetupPlan::WithFallback { primary: AudioSourceKind::Microphone, backup: AudioSourceKind::Wav }
}

fn single() -> SetupPlan<AudioSourceKind> {
    SetupPlan::Single(AudioSourceKind::Wav)
}

#[test]
fn initialize_audio_source_succeeds_when_self_test_passes() {
    let result = drive(single(), (true, true), (false, false));
    assert!(is_ok(result));
}

#[test]
fn initialize_audio_source_fails_when_self_test_fails() {
    let result = drive(single(), (true, false), (false, false));
    assert!(!is_ok(result));
}

#[test]
fn primary_source_is_used_when_available() {
    let result = drive(fallback(), (true, true), (true, true));
    assert!(is_ok(result));
    assert_eq!(result, SetupStage::Ready(Role::Primary));
}

#[test]
fn backup_is_used_when_primary_creation_fails() {
    let result = drive(fallback(), (false, true), (true, true));
    assert!(is_ok(result));
    assert_eq!(result, SetupStage::Ready(Role::Backup));
}

#[test]
fn backup_is_used_when_primary_self_test_fails() {
    let result = drive(fallback(), (true, false), (true, true));
    assert!(is_ok(result));
    assert_eq!(result, SetupStage::Ready(Role::Backup));
}

#[test]
fn returns_error_when_both_sources_fail_to_create() {
    let result = drive(fallback(), (false, true), (false, true));
    assert!(!is_ok(result));
    assert_eq!(result, SetupStage::Failed(Role::Backup, Phase::Creation));
}

#[test]
fn returns_error_when_backup_self_test_fails() {
    let result = drive(fallback(), (false, true), (true, false));
    assert!(!is_ok(result));
    assert_eq!(result, SetupStage::Failed(Role::Backup, Phase::SelfTest));
}

#[test]
fn single_source_creation_failure_is_reported_as_creation() {
    assert_eq!(
        drive(single(), (false, true), (true, true)),
        SetupStage::Failed(Role::Primary, Phase::Creation)
    );
}

#[test]
fn backup_is_not_touched_when_primary_succeeds() {
    let mut setup = SourceSetup::new(fallback());
    assert_eq!(setup.stage(), SetupStage::Create(Role::Primary));
    setup.advance(SetupEvent::Succeeded);
    assert_eq!(setup.stage(), SetupStage::SelfTest(Role::Primary));
    setup.advance(SetupEvent::Succeeded);
    assert_eq!(setup.stage(), SetupStage::Ready(Role::Primary));
    setup.advance(SetupEvent::Failed);
    assert_eq!(setup.stage(), SetupStage::Ready(Role::Primary));
    assert_eq!(setup.device(Role::Primary), AudioSourceKind::Microphone);
    assert_eq!(setup.device(Role::Backup), AudioSourceKind::Wav);
}

#[test]
fn finished_setup_ignores_further_reports() {
    let mut setup = SourceSetup::new(single());
    setup.advance(SetupEvent::Failed);
    assert_eq!(setup.stage(), SetupStage::Failed(Role::Primary, Phase::Creation));
    setup.advance(SetupEvent::Succeeded);
    assert_eq!(setup.stage(), SetupStage::Failed(Role::Primary, Phase::Creation));
}

#[test]
fn audio_names_select_plans() {
    assert_eq!(audio_source_plan("mic").unwrap(), fallback());
    assert_eq!(audio_source_plan("wav").unwrap(), single());
    let err = audio_source_plan("line-in").err().unwrap();
    assert!(matches!(&err, SelectionError::UnknownAudioSource { name } if name == "line-in"));
    assert_eq!(err.message(), "Unknown audio source 'line-in'");
}

#[test]
fn display_names_select_plans() {
    assert_eq!(
        display_plan("oled").unwrap(),
        SetupPlan::WithFallback { primary: DisplayKind::Oled, backup: DisplayKind::Terminal }
    );
    assert_eq!(
        display_plan("bars").unwrap(),
        SetupPlan::WithFallback { primary: DisplayKind::TerminalBars, backup: DisplayKind::Terminal }
    );
    assert_eq!(display_plan("terminal").unwrap(), SetupPlan::Single(DisplayKind::Terminal));
    let err = display_plan("").err().unwrap();
    assert!(matches!(&err, SelectionError::UnknownDisplay { name } if name.is_empty()));
    assert_eq!(err.message(), "Unknown display ''");
}
