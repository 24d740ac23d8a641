//! The death watch ladder, notification decisions and restart planning.

use deities::init_fields::Env;
use deities::mortal::{Mortal, MortalKind};
use deities::service::Service;
use deities::svarog::{
    notification_outcome, NotificationTask, Svarog, WatchEvent, WatchRequest, WatchSignal,
    WatchState,
};
use deities::veles::Veles;

fn record() -> Service {
    Service::default()
}

#[test]
fn reserved_pids_are_rejected_without_any_signal() {
    // -1, 0 and 1 all fail the guard as sanity-check failures; the watch
    // never requests a probe or a delivery for them.
    let svc = record();
    let env = Env::default();
    for pid in [-1, 0, 1] {
        let start = svc.death_watch_start(pid, WatchSignal::Cont);
        assert!(matches!(start, WatchState::Rejected { .. }));
        assert!(svc.death_watch_request(&env, &start).is_none());
        match svc.death_watch(pid, WatchSignal::Cont, &vec![]) {
            Err(m) => assert_eq!(m.kind(), MortalKind::SanityCheckFailure),
            Ok(_) => panic!("pid {} must be rejected", pid),
        }
    }
    match svc.death_watch(-1, WatchSignal::Cont, &vec![]) {
        Err(Mortal::SanityCheckFailure { message }) => {
            assert_eq!(message, "Invalid pid: -1!")
        }
        _ => panic!("the guard names the invalid pid"),
    }
}

#[test]
fn signals_off_the_ladder_are_rejected() {
    let svc = record();
    match svc.death_watch(4242, WatchSignal::Other(27), &vec![]) {
        Err(m) => assert_eq!(m.kind(), MortalKind::SanityCheckFailure),
        Ok(_) => panic!("only the four ladder signals are handled"),
    }
}

#[test]
fn a_gone_process_is_already_interrupted() {
    // The first probe finds no process: terminal success, no delivery.
    let svc = record();
    let events = vec![WatchEvent::Probed { alive: false }];
    match svc.death_watch(4242, WatchSignal::Cont, &events) {
        Ok(Mortal::OkPidAlreadyInterrupted { pid, .. }) => assert_eq!(pid, 4242),
        _ => panic!("a vanished process ends the watch at once"),
    }
}

#[test]
fn the_ladder_escalates_through_exactly_four_rungs() {
    // A process that survives SIGCONT, SIGINT and SIGTERM but dies of
    // SIGKILL is interrupted after exactly the four-step ladder.
    let svc = record();
    let env = Env { deathwatches_interval: Some("2500".to_string()), ..Env::default() };
    let mut state = svc.death_watch_start(4242, WatchSignal::Cont);
    let expected = [WatchSignal::Cont, WatchSignal::Int, WatchSignal::Term, WatchSignal::Kill];
    for (rung, signal) in expected.iter().enumerate() {
        match svc.death_watch_request(&env, &state) {
            Some(WatchRequest::Probe { pid }) => assert_eq!(pid, 4242),
            other => panic!("rung {} starts with a probe, not {:?}", rung, other),
        }
        state = svc.death_watch_step(state, WatchEvent::Probed { alive: true });
        match svc.death_watch_request(&env, &state) {
            Some(WatchRequest::Deliver { pid, signal: s, pause_ms }) => {
                assert_eq!(pid, 4242);
                assert_eq!(s, *signal);
                // Only the first rung delivers without the pause.
                if *signal == WatchSignal::Cont {
                    assert_eq!(pause_ms, 0);
                } else {
                    assert_eq!(pause_ms, 2500);
                }
            }
            other => panic!("rung {} delivers its signal, not {:?}", rung, other),
        }
        let lethal = *signal == WatchSignal::Kill;
        state = svc.death_watch_step(
            state,
            WatchEvent::Delivered { delivered: true, alive_after: !lethal },
        );
    }
    match state {
        WatchState::Ended { outcome: Ok(Mortal::OkPidInterrupted { pid, .. }) } => {
            assert_eq!(pid, 4242)
        }
        _ => panic!("SIGKILL ends the ladder as interrupted"),
    }
}

#[test]
fn the_ladder_runner_reduces_the_same_escalation() {
    let svc = record();
    let events = vec![
        WatchEvent::Probed { alive: true },
        WatchEvent::Delivered { delivered: true, alive_after: true },
        WatchEvent::Probed { alive: true },
        WatchEvent::Delivered { delivered: true, alive_after: true },
        WatchEvent::Probed { alive: true },
        WatchEvent::Delivered { delivered: true, alive_after: true },
        WatchEvent::Probed { alive: true },
        WatchEvent::Delivered { delivered: true, alive_after: false },
    ];
    match svc.death_watch(4242, WatchSignal::Cont, &events) {
        Ok(m) => assert_eq!(m.kind(), MortalKind::OkPidInterrupted),
        Err(_) => panic!("the recorded escalation ends in an interrupt"),
    }
}

#[test]
fn kill_is_idempotent_at_the_top_of_the_ladder() {
    let svc = record();
    let mut state = svc.death_watch_start(4242, WatchSignal::Kill);
    state = svc.death_watch_step(state, WatchEvent::Probed { alive: true });
    state = svc.death_watch_step(
        state,
        WatchEvent::Delivered { delivered: true, alive_after: true },
    );
    // Still at SIGKILL: the terminal rung repeats instead of escalating.
    let env = Env::default();
    state = svc.death_watch_step(state, WatchEvent::Probed { alive: true });
    match svc.death_watch_request(&env, &state) {
        Some(WatchRequest::Deliver { signal, .. }) => assert_eq!(signal, WatchSignal::Kill),
        other => panic!("the top rung stays SIGKILL, not {:?}", other),
    }
}

#[test]
fn pid_reading_collapses_failures_to_the_sentinel() {
    let svc = record();
    assert_eq!(svc.pid(Ok(" 123\n".to_string())), 123);
    assert_eq!(svc.pid(Ok("garbage".to_string())), -1);
    assert_eq!(svc.pid(Err("unreadable".to_string())), -1);
    match svc.read_pid(Ok("99".to_string())) {
        Ok(pid) => assert_eq!(pid, 99),
        Err(_) => panic!("a plain integer parses"),
    }
}

#[test]
fn an_unconfigured_notifier_is_skipped_deliberately() {
    // Empty webhook: a skipped success, and no payload ever leaves the
    // library, so no network call can happen.
    let svc = record();
    let env = Env::default();
    let task = svc.notification(
        &env,
        "message".to_string(),
        "error".to_string(),
        "stamp".to_string(),
    );
    assert!(matches!(task, NotificationTask::Skipped));
    // An empty channel with a set webhook is also a deliberate skip.
    let hooked = Service {
        slack_webhook_url: Some("https://hooks.example/X".to_string()),
        slack_alert_channel: Some("".to_string()),
        ..record()
    };
    let task = hooked.notification(
        &env,
        "message".to_string(),
        "error".to_string(),
        "stamp".to_string(),
    );
    assert!(matches!(task, NotificationTask::Skipped));
}

#[test]
fn a_configured_notifier_builds_the_alert_payload() {
    let svc = Service {
        ini_file: Some("web.ini".to_string()),
        slack_webhook_url: Some("https://hooks.example/X".to_string()),
        slack_alert_channel: Some("#ops".to_string()),
        ..record()
    };
    let env = Env::default();
    let task = svc.notification(
        &env,
        "malfunction of: web".to_string(),
        "connection refused".to_string(),
        "2016-01-01 00:00:00".to_string(),
    );
    match task {
        NotificationTask::Post { payload } => {
            assert_eq!(payload.webhook_url, "https://hooks.example/X");
            assert_eq!(payload.channel, "#ops");
            assert_eq!(payload.username, "Failure Reporter");
            assert_eq!(payload.title, "ALERT NOTIFICATION");
            assert_eq!(payload.author_name, "Failure Reporter");
            assert_eq!(payload.color, "#FF3d41");
            assert_eq!(payload.message, "malfunction of: web");
            assert_eq!(payload.service_details, "Service(name: web, ini: web.ini)");
            assert_eq!(payload.error_details, "connection refused");
            assert_eq!(payload.footer, "2016-01-01 00:00:00");
        }
        NotificationTask::Skipped => panic!("both webhook and channel are set"),
    }
}

#[test]
fn transport_failures_surface_as_notification_failures() {
    match notification_outcome(Ok("Notification sent".to_string())) {
        Ok(msg) => assert_eq!(msg, "Notification sent"),
        Err(_) => panic!("a delivered post succeeds"),
    }
    match notification_outcome(Err("timed out".to_string())) {
        Err(Mortal::NotificationFailure { cause }) => assert_eq!(cause, "timed out"),
        _ => panic!("a transport error is the notification failure"),
    }
}

#[test]
fn the_wrapper_script_holds_shebang_path_cleanup_and_start() {
    let svc = Service {
        ini_file: Some("redis.ini".to_string()),
        cleanup: Some("rm -f /tmp/redis.lock".to_string()),
        ..record()
    };
    let wrapper = svc.create_shell_wrapper("redis-server &".to_string());
    assert_eq!(wrapper.path, "/Services/.redis.sh");
    assert_eq!(
        wrapper.contents,
        "#!/bin/sh\nexport PATH=/bin:/usr/bin:/sbin:/usr/sbin:/usr/local/bin:/usr/local/sbin\n\
         \n#Pre-start cleanup routine:\nrm -f /tmp/redis.lock\n\nredis-server &"
    );
    let plain = Service { ini_file: Some("redis.ini".to_string()), ..record() };
    let wrapper = plain.create_shell_wrapper("redis-server &".to_string());
    assert_eq!(
        wrapper.contents,
        "#!/bin/sh\nexport PATH=/bin:/usr/bin:/sbin:/usr/sbin:/usr/local/bin:/usr/local/sbin\n\
         redis-server &"
    );
}

#[test]
fn a_start_plan_needs_a_start_command() {
    let env = Env::default();
    match record().start_service(&env) {
        Err(m) => assert_eq!(m.kind(), MortalKind::ServiceNoStartDefined),
        Ok(_) => panic!("no start command, no plan"),
    }
    let svc = Service {
        ini_file: Some("redis.ini".to_string()),
        start: Some("redis-server &".to_string()),
        work_dir: Some("/var/db/redis".to_string()),
        user: Some("redis".to_string()),
        group: Some("redis".to_string()),
        ..record()
    };
    match svc.start_service(&env) {
        Ok(plan) => {
            assert_eq!(plan.shell, "/bin/sh");
            assert_eq!(plan.wrapper.path, "/Services/.redis.sh");
            assert_eq!(plan.work_dir, "/var/db/redis");
            assert_eq!(plan.user, "redis");
            assert_eq!(plan.group, "redis");
        }
        Err(_) => panic!("a configured service plans its restart"),
    }
}
