use spwn_cmpl::lifecycle::{parse_mode, Action, Controller, Event, Mode};

#[test]
fn mode_from_first_argument() {
    assert_eq!(parse_mode(None), Mode::Normal);
    assert_eq!(parse_mode(Some(&"-o".to_string())), Mode::RunOnce);
    assert_eq!(parse_mode(Some(&"--once".to_string())), Mode::RunOnce);
    assert_eq!(parse_mode(Some(&"-c".to_string())), Mode::CleanOnly);
    assert_eq!(parse_mode(Some(&"--clean".to_string())), Mode::CleanOnly);
    assert_eq!(parse_mode(Some(&"anything".to_string())), Mode::Normal);
}

#[test]
fn first_run_retains_directory() {
    let mut c = Controller::new(Mode::Normal);
    assert_eq!(c.next_action(), Action::EnsureDir);
    c.step(Event::DirCreated);
    assert_eq!(c.next_action(), Action::Materialize);
    c.step(Event::MaterializeOk);
    assert_eq!(c.next_action(), Action::Launch);
    c.step(Event::LaunchDone);
    assert_eq!(c.next_action(), Action::Finish);
    assert!(c.dir_present);
}

#[test]
fn run_once_removes_directory() {
    let mut c = Controller::new(Mode::RunOnce);
    c.step(Event::DirCreated);
    c.step(Event::MaterializeOk);
    c.step(Event::LaunchDone);
    assert_eq!(c.next_action(), Action::RemoveDir);
    c.step(Event::RemoveOk);
    assert!(!c.dir_present);
    assert_eq!(c.next_action(), Action::Finish);
}

#[test]
fn repeat_launch_skips_materialization() {
    let mut c = Controller::new(Mode::Normal);
    c.step(Event::DirExisted);
    assert_eq!(c.next_action(), Action::Launch);
    c.step(Event::LaunchDone);
    assert_eq!(c.next_action(), Action::Finish);
    assert!(c.dir_present);
}

#[test]
fn materialize_failure_cleans_up_before_abort() {
    let mut c = Controller::new(Mode::Normal);
    c.step(Event::DirCreated);
    c.step(Event::MaterializeFailed);
    assert_eq!(c.next_action(), Action::RemoveDir);
    c.step(Event::RemoveOk);
    assert!(!c.dir_present);
    assert_eq!(c.next_action(), Action::Abort);
}

#[test]
fn clean_only_never_creates() {
    let mut c = Controller::new(Mode::CleanOnly);
    assert_eq!(c.next_action(), Action::RemoveDir);
    c.step(Event::RemoveFailed);
    assert_eq!(c.next_action(), Action::Finish);
    assert!(!c.dir_present);
}

#[test]
fn launch_failure_aborts_without_cleanup() {
    let mut c = Controller::new(Mode::Normal);
    c.step(Event::DirCreated);
    c.step(Event::MaterializeOk);
    c.step(Event::LaunchFailed);
    assert_eq!(c.next_action(), Action::Abort);
    assert!(c.dir_present);
}

#[test]
fn directory_failure_aborts() {
    let mut c = Controller::new(Mode::Normal);
    c.step(Event::DirFailed);
    assert_eq!(c.next_action(), Action::Abort);
}
