use portman::launch::{LaunchPhase, LaunchSession};
use portman::outcome::{LifecycleError, StopOutcome};
use portman::stop::StopAction;
use portman::supervisor::Supervisor;

fn drive_graceful_exit(session: &mut portman::stop::StopSession) {
    // Every target accepts the graceful signal and dies within the grace
    // period.
    loop {
        match session.next_action() {
            StopAction::SendTerm(_) => session.on_term_result(true),
            StopAction::ProbeAfterGrace(_) => session.on_probe_result(false),
            StopAction::SendKill(_) => session.on_kill_sent(),
            StopAction::Report => break,
        }
    }
}

#[test]
fn start_records_exactly_the_returned_pid() {
    let mut sup = Supervisor::new();
    sup.record_start("web".to_string(), 41);
    assert_eq!(sup.known_pid(&"web".to_string()), Some(41));
    assert_eq!(sup.tracked_count(), 1);
}

#[test]
fn second_start_overwrites_without_leak() {
    let mut sup = Supervisor::new();
    sup.record_start("web".to_string(), 41);
    sup.record_start("web".to_string(), 52);
    assert_eq!(sup.known_pid(&"web".to_string()), Some(52));
    assert_eq!(sup.tracked_count(), 1);
}

#[test]
fn starts_for_different_ids_coexist() {
    let mut sup = Supervisor::new();
    sup.record_start("web".to_string(), 41);
    sup.record_start("api".to_string(), 42);
    assert_eq!(sup.known_pid(&"web".to_string()), Some(41));
    assert_eq!(sup.known_pid(&"api".to_string()), Some(42));
    assert_eq!(sup.tracked_count(), 2);
}

#[test]
fn stop_of_never_started_id_with_free_port_reports_nothing_running() {
    let mut sup = Supervisor::new();
    let mut session = sup.begin_stop(&"ghost".to_string(), Some(Vec::new()));
    assert!(session.is_done());
    drive_graceful_exit(&mut session);
    assert_eq!(session.outcome(), StopOutcome::NothingRunning);
}

#[test]
fn stop_of_never_started_id_with_occupant_stops_it() {
    let mut sup = Supervisor::new();
    let mut session = sup.begin_stop(&"ghost".to_string(), Some(vec![123]));
    drive_graceful_exit(&mut session);
    assert_eq!(session.outcome(), StopOutcome::StoppedOccupants);
    assert_eq!(session.processed_pids(), &vec![123]);
}

#[test]
fn stale_entry_with_free_port_reports_cleared() {
    let mut sup = Supervisor::new();
    sup.record_start("web".to_string(), 41);
    let mut session = sup.begin_stop(&"web".to_string(), Some(Vec::new()));
    drive_graceful_exit(&mut session);
    assert_eq!(session.outcome(), StopOutcome::StaleEntryCleared);
    assert_eq!(sup.known_pid(&"web".to_string()), None);
}

#[test]
fn second_stop_in_a_row_reports_nothing_running() {
    let mut sup = Supervisor::new();
    sup.record_start("web".to_string(), 41);
    let mut first = sup.begin_stop(&"web".to_string(), Some(vec![41]));
    drive_graceful_exit(&mut first);
    assert_eq!(first.outcome(), StopOutcome::StoppedOccupants);
    assert_eq!(sup.known_pid(&"web".to_string()), None);
    // The first stop terminated the occupant, so the port is empty now.
    let mut second = sup.begin_stop(&"web".to_string(), Some(Vec::new()));
    drive_graceful_exit(&mut second);
    assert_eq!(second.outcome(), StopOutcome::NothingRunning);
}

#[test]
fn stubborn_process_receives_the_forceful_signal() {
    let mut sup = Supervisor::new();
    let mut session = sup.begin_stop(&"web".to_string(), Some(vec![777]));
    assert_eq!(session.next_action(), StopAction::SendTerm(777));
    session.on_term_result(true);
    assert_eq!(session.next_action(), StopAction::ProbeAfterGrace(777));
    // Still alive after the grace period: escalation is owed before the
    // session can report.
    session.on_probe_result(true);
    assert_eq!(session.next_action(), StopAction::SendKill(777));
    session.on_kill_sent();
    assert!(session.is_done());
    assert_eq!(session.killed_pids(), &vec![777]);
    assert_eq!(session.outcome(), StopOutcome::StoppedOccupants);
    assert_eq!(session.processed_pids(), &vec![777]);
}

#[test]
fn well_behaved_process_is_never_force_killed() {
    let mut sup = Supervisor::new();
    let mut session = sup.begin_stop(&"web".to_string(), Some(vec![600]));
    session.on_term_result(true);
    session.on_probe_result(false);
    assert!(session.is_done());
    assert_eq!(session.killed_pids(), &Vec::<u32>::new());
    assert_eq!(session.outcome(), StopOutcome::StoppedOccupants);
}

#[test]
fn failed_graceful_send_escalates_at_once() {
    let mut sup = Supervisor::new();
    let mut session = sup.begin_stop(&"web".to_string(), Some(vec![601]));
    session.on_term_result(false);
    assert_eq!(session.next_action(), StopAction::SendKill(601));
}

#[test]
fn every_occupant_is_processed_in_order() {
    let mut sup = Supervisor::new();
    let mut session = sup.begin_stop(&"web".to_string(), Some(vec![11, 12, 13]));
    assert_eq!(session.next_action(), StopAction::SendTerm(11));
    session.on_term_result(false);
    session.on_kill_sent();
    assert_eq!(session.next_action(), StopAction::SendTerm(12));
    session.on_term_result(true);
    session.on_probe_result(true);
    session.on_kill_sent();
    assert_eq!(session.next_action(), StopAction::SendTerm(13));
    session.on_term_result(true);
    session.on_probe_result(false);
    assert!(session.is_done());
    assert_eq!(session.killed_pids(), &vec![11, 12]);
    assert_eq!(session.processed_pids(), &vec![11, 12, 13]);
}

#[test]
fn without_introspection_the_known_pid_is_force_killed() {
    let mut sup = Supervisor::new();
    sup.record_start("web".to_string(), 55);
    let mut session = sup.begin_stop(&"web".to_string(), None);
    assert_eq!(session.next_action(), StopAction::SendKill(55));
    session.on_kill_sent();
    assert!(session.is_done());
    assert_eq!(session.outcome(), StopOutcome::StoppedOccupants);
}

#[test]
fn without_introspection_and_without_entry_nothing_runs() {
    let mut sup = Supervisor::new();
    let mut session = sup.begin_stop(&"web".to_string(), None);
    assert!(session.is_done());
    drive_graceful_exit(&mut session);
    assert_eq!(session.outcome(), StopOutcome::NothingRunning);
}

#[test]
fn port_status_follows_occupancy() {
    assert!(Supervisor::port_in_use(&Some(vec![1])));
    assert!(!Supervisor::port_in_use(&Some(Vec::new())));
    assert!(!Supervisor::port_in_use(&None));
}

#[test]
fn missing_executable_fails_before_any_log_step() {
    let mut launch = LaunchSession::new();
    assert_eq!(launch.phase(), LaunchPhase::CheckingPath);
    launch.on_path_probe(false);
    // The pipeline is already finished: the log-opening phase was never
    // reached, so no log file or process can have been created.
    assert_eq!(launch.phase(), LaunchPhase::Failed(LifecycleError::NotFound));
    assert_eq!(launch.result(), Some(Err(LifecycleError::NotFound)));
}

#[test]
fn launch_pipeline_in_order_to_success() {
    let mut sup = Supervisor::new();
    let mut launch = LaunchSession::new();
    launch.on_path_probe(true);
    assert_eq!(launch.phase(), LaunchPhase::OpeningLog);
    launch.on_log_open(true);
    assert_eq!(launch.phase(), LaunchPhase::GrantingExecute);
    // A failed permission grant is merely diagnostic; the launch proceeds.
    launch.on_execute_grant(false);
    assert_eq!(launch.phase(), LaunchPhase::Spawning);
    launch.on_spawn(Some(4242));
    assert_eq!(launch.result(), Some(Ok(4242)));
    sup.record_start("web".to_string(), 4242);
    assert_eq!(sup.known_pid(&"web".to_string()), Some(4242));
}

#[test]
fn unopenable_log_aborts_with_io_failure() {
    let mut launch = LaunchSession::new();
    launch.on_path_probe(true);
    launch.on_log_open(false);
    assert_eq!(launch.result(), Some(Err(LifecycleError::IoFailure)));
}

#[test]
fn refused_spawn_aborts_with_spawn_failed() {
    let mut launch = LaunchSession::new();
    launch.on_path_probe(true);
    launch.on_log_open(true);
    launch.on_execute_grant(true);
    launch.on_spawn(None);
    assert_eq!(launch.result(), Some(Err(LifecycleError::SpawnFailed)));
}
