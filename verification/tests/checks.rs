//! The check engine: probe reduction, fixed order, counting, and the
//! end-to-end remediation scenario.

use deities::init_fields::Env;
use deities::mortal::{Mortal, MortalKind};
use deities::perun::{
    CheckEvent, CheckRequest, CheckState, DiskLayout, DiskReport, Perun, SocketProbe,
};
use deities::service::Service;
use deities::supervisor::{cycle_pause_ms, remedy_for, Remedy};
use deities::svarog::{NotificationTask, Svarog};
use deities::veles::Veles;

fn record() -> Service {
    Service::default()
}

fn roomy_disk() -> CheckEvent {
    CheckEvent::Disk { space_kib: 10_000_000, inodes: Some(1_000_000) }
}

const LINUX_DF: &str = "Filesystem     1K-blocks    Used Available Use% Mounted on\n\
                        /dev/vda1       20510568 3157596  16297100  17% /\n";

const BSD_DF: &str = "Filesystem         1K-blocks   Used    Avail Capacity iused    ifree %iused  Mounted on\n\
                      zroot/ROOT/default  49815548 817556 48997992     2%   49351 97995984    0%   /\n";

#[test]
fn disk_report_parses_the_fixed_columns() {
    let svc = record();
    let linux = DiskReport::Output { text: LINUX_DF.to_string() };
    assert_eq!(svc.check_disk_space(&linux, DiskLayout::SpaceOnly), (16297100, None));
    let bsd = DiskReport::Output { text: BSD_DF.to_string() };
    assert_eq!(
        svc.check_disk_space(&bsd, DiskLayout::SpaceAndInodes),
        (48997992, Some(97995984))
    );
}

#[test]
fn disk_report_failures_keep_their_sentinels() {
    let svc = record();
    assert_eq!(svc.check_disk_space(&DiskReport::CommandFailed, DiskLayout::SpaceOnly), (-1, Some(-1)));
    assert_eq!(svc.check_disk_space(&DiskReport::Unreadable, DiskLayout::SpaceAndInodes), (-2, Some(-2)));
    let garbled = DiskReport::Output { text: "header\nfs total used junk\n".to_string() };
    assert_eq!(svc.check_disk_space(&garbled, DiskLayout::SpaceOnly), (-1, None));
    let short = DiskReport::Output { text: "header\nfs\n".to_string() };
    assert_eq!(svc.check_disk_space(&short, DiskLayout::SpaceOnly), (0, None));
}

#[test]
fn disk_check_judges_space_then_inodes() {
    // Low space fails as disk-space; low inodes with enough space fail as
    // disk-inodes; both sufficient pass.
    let svc = record();
    let env = Env::default();
    let low_space = svc.try_disk_check(&env, 2_000_000, Some(1_000_000));
    match low_space {
        Err(m) => assert_eq!(m.kind(), MortalKind::CheckDiskSpace),
        Ok(_) => panic!("2 GiB free is below the 3000 MiB minimum"),
    }
    let low_inodes = svc.try_disk_check(&env, 10_000_000, Some(100));
    match low_inodes {
        Err(m) => assert_eq!(m.kind(), MortalKind::CheckDiskInodes),
        Ok(_) => panic!("100 free inodes are below the 4096 minimum"),
    }
    match svc.try_disk_check(&env, 10_000_000, Some(1_000_000)) {
        Ok(m) => assert_eq!(m.kind(), MortalKind::OkDiskCheck),
        Err(_) => panic!("a roomy disk passes"),
    }
    match svc.try_disk_check(&env, 10_000_000, None) {
        Ok(m) => assert_eq!(m.kind(), MortalKind::OkDiskCheck),
        Err(_) => panic!("without an inode count only space is judged"),
    }
}

#[test]
fn no_configured_checks_is_a_failure() {
    // Every check target unset: the engine settles on no-checks-configured.
    let svc = record();
    let env = Env::default();
    match svc.checks_for(&env, vec![roomy_disk()]) {
        Err(m) => assert_eq!(m.kind(), MortalKind::CheckNoServiceChecks),
        Ok(_) => panic!("a service with no checks cannot be supervised"),
    }
}

#[test]
fn one_passing_target_counts_disk_plus_one() {
    let env = Env::default();
    let with_socket = Service { unix_socket: Some("/run/x.sock".to_string()), ..record() };
    let events = vec![roomy_disk(), CheckEvent::Socket { probe: SocketProbe::Accepted }];
    match with_socket.checks_for(&env, events) {
        Ok(Mortal::OkAllChecks { amount, .. }) => assert_eq!(amount, 2),
        other => panic!("socket-only service must pass two checks, got {:?}", other.map(|m| m.kind())),
    }
    let with_pid = Service { pid_file: Some("/run/x.pid".to_string()), ..record() };
    let events = vec![
        roomy_disk(),
        CheckEvent::PidRead { content: Ok("123".to_string()) },
        CheckEvent::PidAlive { alive: true },
    ];
    match with_pid.checks_for(&env, events) {
        Ok(Mortal::OkAllChecks { amount, .. }) => assert_eq!(amount, 2),
        other => panic!("pid-only service must pass two checks, got {:?}", other.map(|m| m.kind())),
    }
    let with_urls = Service { urls: Some(vec!["http://a/".to_string()]), ..record() };
    let passed = Mortal::OkUrlsChecks { service: with_urls.clone() };
    let events = vec![roomy_disk(), CheckEvent::Urls { result: Ok(passed) }];
    match with_urls.checks_for(&env, events) {
        Ok(Mortal::OkAllChecks { amount, .. }) => assert_eq!(amount, 2),
        other => panic!("url-only service must pass two checks, got {:?}", other.map(|m| m.kind())),
    }
}

#[test]
fn the_first_failure_short_circuits() {
    let env = Env::default();
    let svc = Service {
        unix_socket: Some("/run/x.sock".to_string()),
        pid_file: Some("/run/x.pid".to_string()),
        ..record()
    };
    // A failing disk settles at once; the socket stage is never reached.
    let events = vec![CheckEvent::Disk { space_kib: 100, inodes: Some(1_000_000) }];
    match svc.checks_for(&env, events) {
        Err(m) => assert_eq!(m.kind(), MortalKind::CheckDiskSpace),
        Ok(_) => panic!("a full disk fails the sequence"),
    }
    // A refused socket settles before the PID file is ever requested.
    let events = vec![
        roomy_disk(),
        CheckEvent::Socket {
            probe: SocketProbe::ConnectFailed { cause: "refused".to_string() },
        },
    ];
    match svc.checks_for(&env, events) {
        Err(m) => assert_eq!(m.kind(), MortalKind::CheckUnixSocketMissing),
        Ok(_) => panic!("a missing socket fails the sequence"),
    }
}

#[test]
fn engine_states_request_their_probes_in_order() {
    let env = Env::default();
    let svc = Service {
        unix_socket: Some("/run/x.sock".to_string()),
        pid_file: Some("/run/x.pid".to_string()),
        ..record()
    };
    let state = CheckState::NeedDisk;
    assert!(matches!(svc.checks_request(&state), Some(CheckRequest::Disk)));
    let state = svc.checks_step(&env, state, roomy_disk());
    match svc.checks_request(&state) {
        Some(CheckRequest::Socket { path }) => assert_eq!(path, "/run/x.sock"),
        other => panic!("after the disk the socket is probed, not {:?}", other),
    }
    let state = svc.checks_step(&env, state, CheckEvent::Socket { probe: SocketProbe::Accepted });
    match svc.checks_request(&state) {
        Some(CheckRequest::PidRead { path }) => assert_eq!(path, "/run/x.pid"),
        other => panic!("after the socket the pid file is read, not {:?}", other),
    }
    let state = svc.checks_step(&env, state, CheckEvent::PidRead { content: Ok(" 321 ".to_string()) });
    match svc.checks_request(&state) {
        Some(CheckRequest::PidAlive { pid }) => assert_eq!(pid, 321),
        other => panic!("a parsed pid is probed for existence, not {:?}", other),
    }
    let state = svc.checks_step(&env, state, CheckEvent::PidAlive { alive: true });
    assert!(svc.checks_request(&state).is_none());
    match state {
        CheckState::Settled { outcome: Ok(Mortal::OkAllChecks { amount, .. }) } => {
            assert_eq!(amount, 3)
        }
        _ => panic!("disk, socket and pid make three passed checks"),
    }
}

#[test]
fn malformed_pid_files_fail_without_a_crash() {
    let env = Env::default();
    let svc = Service { pid_file: Some("/run/x.pid".to_string()), ..record() };
    let events = vec![roomy_disk(), CheckEvent::PidRead { content: Ok("not-a-pid".to_string()) }];
    match svc.checks_for(&env, events) {
        Err(m) => assert_eq!(m.kind(), MortalKind::CheckPidfileMalformed),
        Ok(_) => panic!("non-numeric pid file content is malformed"),
    }
    let events = vec![
        roomy_disk(),
        CheckEvent::PidRead { content: Err("permission denied".to_string()) },
    ];
    match svc.checks_for(&env, events) {
        Err(m) => assert_eq!(m.kind(), MortalKind::CheckPidfileUnaccessible),
        Ok(_) => panic!("an unreadable pid file is unaccessible"),
    }
    let events = vec![
        roomy_disk(),
        CheckEvent::PidRead { content: Ok("4242".to_string()) },
        CheckEvent::PidAlive { alive: false },
    ];
    match svc.checks_for(&env, events) {
        Err(m) => {
            assert_eq!(m.kind(), MortalKind::CheckPidDead);
            match m {
                Mortal::CheckPidDead { pid, .. } => assert_eq!(pid, 4242),
                _ => unreachable!(),
            }
        }
        Ok(_) => panic!("a vanished pid is dead"),
    }
}

#[test]
fn rerunning_unchanged_checks_is_idempotent() {
    // Same record, same probe events: the same success variant and count
    // both times.
    let env = Env::default();
    let svc = Service { unix_socket: Some("/run/x.sock".to_string()), ..record() };
    let events = || vec![roomy_disk(), CheckEvent::Socket { probe: SocketProbe::Accepted }];
    let first = svc.checks_for(&env, events());
    let second = svc.checks_for(&env, events());
    match (first, second) {
        (
            Ok(Mortal::OkAllChecks { amount: a1, .. }),
            Ok(Mortal::OkAllChecks { amount: a2, .. }),
        ) => assert_eq!((a1, a2), (2, 2)),
        _ => panic!("both runs succeed identically"),
    }
}

#[test]
fn empty_url_list_passes_without_requests() {
    let env = Env::default();
    let svc = record();
    match svc.try_urls(&env) {
        Ok(m) => assert_eq!(m.kind(), MortalKind::OkUrlsChecks),
        Err(_) => panic!("no URLs means nothing can fail"),
    }
}

#[test]
fn closed_port_fails_notify_then_restart_is_demanded() {
    // The end-to-end scenario: web.ini names one URL on a closed port and
    // a configured notifier; the failed check demands a notification and
    // an unconditional restart, and without a start command the restart
    // yields its own distinct failure, not a second attempt.
    let env = Env::default();
    let svc = Service {
        ini_file: Some("web.ini".to_string()),
        urls: Some(vec!["http://127.0.0.1:9/".to_string()]),
        slack_webhook_url: Some("https://hooks.example/T000/B000/C000".to_string()),
        slack_alert_channel: Some("#ops".to_string()),
        ..record()
    };
    let url_result = svc.try_urls(&env);
    let kind = match &url_result {
        Err(m) => m.kind(),
        Ok(_) => panic!("a closed port cannot answer a GET"),
    };
    assert!(
        kind == MortalKind::CheckURL || kind == MortalKind::CheckURLFail,
        "a closed port fails the URL check, got {:?}",
        kind
    );
    let outcome = svc.checks_for(&env, vec![roomy_disk(), CheckEvent::Urls { result: url_result }]);
    let failure_kind = match &outcome {
        Err(m) => m.kind(),
        Ok(_) => panic!("the sequence fails with its URL"),
    };
    assert!(failure_kind == MortalKind::CheckURL || failure_kind == MortalKind::CheckURLFail);
    assert_eq!(remedy_for(&outcome), Remedy::NotifyAndRestart);
    match svc.notification(
        &env,
        "malfunction of: web".to_string(),
        "URL check failure".to_string(),
        "2016-01-01 00:00:00".to_string(),
    ) {
        NotificationTask::Post { payload } => {
            assert_eq!(payload.channel, "#ops");
        }
        NotificationTask::Skipped => panic!("a configured notifier is not skipped"),
    }
    match svc.start_service(&env) {
        Err(m) => assert_eq!(m.kind(), MortalKind::ServiceNoStartDefined),
        Ok(_) => panic!("without a start command nothing can be restarted"),
    }
}

#[test]
fn disk_failures_are_notified_but_never_remediated() {
    let svc = record();
    let space: Result<Mortal, Mortal> = Err(Mortal::CheckDiskSpace { service: svc.clone() });
    assert_eq!(remedy_for(&space), Remedy::NotifyOnly);
    let inodes: Result<Mortal, Mortal> = Err(Mortal::CheckDiskInodes { service: svc.clone() });
    assert_eq!(remedy_for(&inodes), Remedy::NotifyOnly);
    let ok: Result<Mortal, Mortal> = Ok(Mortal::OkAllChecks { service: svc.clone(), amount: 1 });
    assert_eq!(remedy_for(&ok), Remedy::Observe);
    let dead: Result<Mortal, Mortal> = Err(Mortal::CheckPidDead { service: svc, pid: 7 });
    assert_eq!(remedy_for(&dead), Remedy::NotifyAndRestart);
}

#[test]
fn socket_probe_outcomes_map_to_their_variants() {
    let svc = record();
    match svc.try_unix_socket(SocketProbe::Accepted) {
        Ok(m) => assert_eq!(m.kind(), MortalKind::OkUnixSockCheck),
        Err(_) => panic!("an accepted probe passes"),
    }
    match svc.try_unix_socket(SocketProbe::WriteFailed { cause: "broken pipe".to_string() }) {
        Err(m) => assert_eq!(m.kind(), MortalKind::CheckUnixSocket),
        Ok(_) => panic!("a refused write fails"),
    }
    match svc.try_unix_socket(SocketProbe::ConnectFailed { cause: "refused".to_string() }) {
        Err(m) => assert_eq!(m.kind(), MortalKind::CheckUnixSocketMissing),
        Ok(_) => panic!("a refused connection fails"),
    }
}

#[test]
fn pid_probe_outcomes_map_to_their_variants() {
    let svc = record();
    match svc.try_pid_file(77, true) {
        Ok(Mortal::OkPidAlive { pid, .. }) => assert_eq!(pid, 77),
        _ => panic!("an existing process is alive"),
    }
    match svc.try_pid_file(77, false) {
        Err(m) => assert_eq!(m.kind(), MortalKind::CheckPidDead),
        Ok(_) => panic!("a vanished process is dead"),
    }
}

#[test]
fn only_an_idle_cycle_throttles() {
    assert_eq!(cycle_pause_ms(0), 3000);
    assert_eq!(cycle_pause_ms(1), 0);
    assert_eq!(cycle_pause_ms(12), 0);
}
