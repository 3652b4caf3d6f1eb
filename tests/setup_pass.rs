use tauri_app::{Action, AttrOutcome, Phase, Platform, SetupError, SetupPass};

fn drive(pass: &mut SetupPass, outcomes: Vec<Result<(), String>>) -> Vec<Action> {
    let mut performed = Vec::new();
    for r in outcomes {
        let action = pass.next_action();
        if action == Action::Finish {
            break;
        }
        performed.push(action);
        pass.on_outcome(r);
    }
    performed
}

fn fail(cause: &str) -> Result<(), String> {
    Err(cause.to_string())
}

#[test]
fn full_pass_on_macos_performs_each_operation_once() {
    let mut pass = SetupPass::new(Platform::MacOs);
    let performed = drive(&mut pass, vec![Ok(()), Ok(()), Ok(()), Ok(()), Ok(()), Ok(())]);
    assert_eq!(
        performed,
        vec![
            Action::ResolveWindow,
            Action::SetVisibleOnAllWorkspaces,
            Action::SetContentProtected,
            Action::RegisterShortcut,
        ]
    );
    assert_eq!(pass.next_action(), Action::Finish);
    let report = pass.finish().ok().unwrap();
    assert_eq!(report.workspaces, AttrOutcome::Applied);
    assert_eq!(report.protection, AttrOutcome::Applied);
    assert!(report.diagnostics.is_empty());
}

#[test]
fn full_pass_elsewhere_skips_workspaces() {
    let mut pass = SetupPass::new(Platform::Other);
    let performed = drive(&mut pass, vec![Ok(()), Ok(()), Ok(()), Ok(())]);
    assert_eq!(
        performed,
        vec![Action::ResolveWindow, Action::SetContentProtected, Action::RegisterShortcut]
    );
    let report = pass.finish().ok().unwrap();
    assert_eq!(report.workspaces, AttrOutcome::NotAttempted);
    assert_eq!(report.protection, AttrOutcome::Applied);
}

#[test]
fn finished_pass_ignores_further_outcomes() {
    let mut pass = SetupPass::new(Platform::Other);
    drive(&mut pass, vec![Ok(()), Ok(()), Ok(())]);
    assert!(pass.is_finished());
    assert_eq!(pass.on_outcome(fail("late")), None);
    assert_eq!(pass.on_outcome(Ok(())), None);
    assert_eq!(pass.phase(), Phase::Finished);
    assert_eq!(pass.next_action(), Action::Finish);
    let report = pass.finish().ok().unwrap();
    assert_eq!(report.protection, AttrOutcome::Applied);
    assert!(report.diagnostics.is_empty());
}

#[test]
fn missing_main_window_fails_before_anything_else() {
    let mut pass = SetupPass::new(Platform::MacOs);
    let performed = drive(&mut pass, vec![fail("no window labelled main"), Ok(()), Ok(()), Ok(())]);
    assert_eq!(performed, vec![Action::ResolveWindow]);
    let err = pass.finish().err().unwrap();
    assert!(matches!(err, SetupError::WindowNotFound));
    assert_eq!(err.message(), "No window labelled main");
}

#[test]
fn rejected_shortcut_fails_setup_with_its_cause() {
    let mut pass = SetupPass::new(Platform::Other);
    let performed = drive(&mut pass, vec![Ok(()), Ok(()), fail("already registered"), Ok(())]);
    assert_eq!(
        performed,
        vec![Action::ResolveWindow, Action::SetContentProtected, Action::RegisterShortcut]
    );
    assert_eq!(pass.next_action(), Action::Finish);
    let err = pass.finish().err().unwrap();
    match &err {
        SetupError::ShortcutRejected(cause) => assert_eq!(cause, "already registered"),
        SetupError::WindowNotFound => panic!("wrong error"),
    }
    assert_eq!(
        err.message(),
        "Failed to register global shortcut CommandOrControl+Shift+S: already registered"
    );
}

#[test]
fn failed_workspaces_still_attempts_protection() {
    let mut pass = SetupPass::new(Platform::MacOs);
    pass.on_outcome(Ok(()));
    assert_eq!(pass.next_action(), Action::SetVisibleOnAllWorkspaces);
    let line = pass.on_outcome(fail("unsupported"));
    assert_eq!(
        line.unwrap(),
        "Failed to set window visible on all workspaces: unsupported"
    );
    assert_eq!(pass.next_action(), Action::SetContentProtected);
    assert_eq!(pass.on_outcome(Ok(())), None);
    assert_eq!(pass.next_action(), Action::RegisterShortcut);
    pass.on_outcome(Ok(()));
    let report = pass.finish().ok().unwrap();
    assert_eq!(report.workspaces, AttrOutcome::Failed);
    assert_eq!(report.protection, AttrOutcome::Applied);
    assert_eq!(
        report.diagnostics,
        vec!["Failed to set window visible on all workspaces: unsupported".to_string()]
    );
}

#[test]
fn both_attribute_failures_are_logged_and_startup_proceeds() {
    let mut pass = SetupPass::new(Platform::MacOs);
    let performed = drive(
        &mut pass,
        vec![Ok(()), fail("denied"), fail("no compositor"), Ok(())],
    );
    assert_eq!(performed.len(), 4);
    let report = pass.finish().ok().unwrap();
    assert_eq!(report.workspaces, AttrOutcome::Failed);
    assert_eq!(report.protection, AttrOutcome::Failed);
    assert_eq!(
        report.diagnostics,
        vec![
            "Failed to set window visible on all workspaces: denied".to_string(),
            "Failed to set content protection: no compositor".to_string(),
        ]
    );
}

#[test]
fn failed_protection_is_not_fatal() {
    let mut pass = SetupPass::new(Platform::Other);
    pass.on_outcome(Ok(()));
    let line = pass.on_outcome(fail("not supported"));
    assert_eq!(line.unwrap(), "Failed to set content protection: not supported");
    assert_eq!(pass.next_action(), Action::RegisterShortcut);
    pass.on_outcome(Ok(()));
    assert!(pass.finish().is_ok());
}
