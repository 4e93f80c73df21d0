use portman::launch::LaunchPhase;
use portman::outcome::StopOutcome;
use portman::restart::RestartPhase;
use portman::stop::StopAction;
use portman::supervisor::Supervisor;

#[test]
fn restart_terminates_settles_launches_and_records_fresh_pid() {
    let mut sup = Supervisor::new();
    sup.record_start("web".to_string(), 10);
    let mut session = sup.begin_restart(&"web".to_string(), Some(vec![10, 11]));
    assert_eq!(session.phase(), RestartPhase::Terminating);
    // The registry entry is gone before any signal is sent.
    assert_eq!(sup.known_pid(&"web".to_string()), None);
    loop {
        match session.stopper.next_action() {
            StopAction::SendTerm(_) => session.stopper.on_term_result(true),
            StopAction::ProbeAfterGrace(_) => session.stopper.on_probe_result(true),
            StopAction::SendKill(_) => session.stopper.on_kill_sent(),
            StopAction::Report => break,
        }
    }
    assert_eq!(session.stopper.killed_pids(), &vec![10, 11]);
    session.termination_complete();
    assert_eq!(session.phase(), RestartPhase::Settling);
    session.settled();
    assert_eq!(session.phase(), RestartPhase::Launching);
    session.launcher.on_path_probe(true);
    session.launcher.on_log_open(true);
    session.launcher.on_execute_grant(true);
    session.launcher.on_spawn(Some(99));
    assert_eq!(session.launcher.result(), Some(Ok(99)));
    sup.record_start("web".to_string(), 99);
    // A fresh pid, distinct from every prior occupant of the port.
    let recorded = sup.known_pid(&"web".to_string()).unwrap();
    assert_eq!(recorded, 99);
    assert!(recorded != 10 && recorded != 11);
}

#[test]
fn restart_without_registry_entry_still_clears_the_port() {
    let mut sup = Supervisor::new();
    let mut session = sup.begin_restart(&"web".to_string(), Some(vec![5]));
    assert_eq!(session.stopper.next_action(), StopAction::SendTerm(5));
    session.stopper.on_term_result(true);
    session.stopper.on_probe_result(false);
    assert!(session.stopper.is_done());
    assert_eq!(session.stopper.outcome(), StopOutcome::StoppedOccupants);
}

#[test]
fn restart_without_introspection_falls_back_to_the_known_pid() {
    let mut sup = Supervisor::new();
    sup.record_start("web".to_string(), 77);
    let mut session = sup.begin_restart(&"web".to_string(), None);
    assert_eq!(session.stopper.next_action(), StopAction::SendKill(77));
    session.stopper.on_kill_sent();
    assert!(session.stopper.is_done());
    session.termination_complete();
    session.settled();
    assert_eq!(session.launcher.phase(), LaunchPhase::CheckingPath);
}
