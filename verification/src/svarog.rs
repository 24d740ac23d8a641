//! Svarog: system-facing lifecycle operations. PID files are parsed here,
//! the signal-escalation death watch is a verified state machine whose
//! probes and deliveries arrive as events, and the notification decision
//! builds the alert payload or deliberately skips an unconfigured notifier.

use vstd::prelude::*;
use vstd::string::*;

use crate::common::DEFAULT_HOSTNAME;
use crate::common::DEFAULT_NOTIFICATION_NAME;
use crate::common::VERSION;
use crate::init_fields::Env;
use crate::init_fields::InitFields;
use crate::mortal::Mortal;
use crate::parse::spec_parse_i32;
use crate::parse::spec_trim;
use crate::parse::parse_i32;
use crate::parse::trim_str;
use crate::service::Service;

verus! {

/// Basic facts about the host, used for diagnostic notification content.
/// All fields are empty when the underlying query fails.
#[derive(Debug, Default)]
pub struct SysInfo {
    /// Kernel name, e.g. `Linux` or `Darwin`.
    pub sysname: String,
    /// Host name as the kernel reports it.
    pub nodename: String,
    /// Kernel release.
    pub release: String,
    /// Kernel version string.
    pub version: String,
    /// Machine hardware name.
    pub machine: String,
}

/// Relies on `uname::uname`: copies the kernel's report field by field, or
/// falls back to an empty record when the query fails. The result depends
/// on the host, so nothing further is specified of it.
#[verifier::external_body]
fn query_sys_info() -> SysInfo {
    match uname::uname() {
        Ok(i) => SysInfo {
            sysname: i.sysname,
            nodename: i.nodename,
            release: i.release,
            version: i.version,
            machine: i.machine,
        },
        Err(_) => SysInfo::default(),
    }
}

/// Relies on `hostname::get`: the host's name; `unknown` when it is not
/// valid text, the fallback host name when the query fails. The result
/// depends on the host, so nothing further is specified of it.
#[verifier::external_body]
fn query_hostname() -> String {
    match hostname::get() {
        Ok(name) => name.into_string().unwrap_or_else(|_| "unknown".to_owned()),
        Err(_) => DEFAULT_HOSTNAME.to_owned(),
    }
}

/// A rung of the death watch's escalation ladder, or any other signal
/// number, which the watch refuses.
#[derive(Debug, Clone, Copy, PartialEq, Eq, Structural)]
pub enum WatchSignal {
    /// `SIGCONT`, delivered first and without a preceding pause.
    Cont,
    /// `SIGINT`.
    Int,
    /// `SIGTERM`.
    Term,
    /// `SIGKILL`; the ladder's terminal rung, repeated if ignored.
    Kill,
    /// Any other signal number; no rung, rejected by the guard.
    Other(i32),
}

/// State of one death watch.
pub enum WatchState {
    /// The guard refused the target outright: the PID is unkillable or
    /// reserved, or the signal is no ladder rung.
    Rejected { pid: i32, signal: WatchSignal },
    /// The watch needs an existence probe of the process.
    NeedProbe { pid: i32, signal: WatchSignal },
    /// The watch needs the current signal delivered (after the configured
    /// pause, except for the first rung) and a follow-up probe.
    NeedDelivery { pid: i32, signal: WatchSignal },
    /// The watch is over.
    Ended { outcome: Result<Mortal, Mortal> },
}

/// What the embedding program reports back to the watch.
#[derive(Debug, Clone, Copy)]
pub enum WatchEvent {
    /// Result of an existence probe.
    Probed { alive: bool },
    /// Result of delivering the current signal: whether delivery succeeded
    /// and whether the process still existed right afterwards.
    Delivered { delivered: bool, alive_after: bool },
}

/// What the embedding program must do next for the watch.
#[derive(Debug, Clone, Copy, PartialEq, Eq, Structural)]
pub enum WatchRequest {
    /// Probe the process for existence, without delivering anything.
    Probe { pid: i32 },
    /// Pause `pause_ms` milliseconds, deliver `signal`, then probe again.
    Deliver { pid: i32, signal: WatchSignal, pause_ms: u64 },
}

/// The next rung of the escalation ladder.
pub open spec fn spec_next_signal(signal: WatchSignal) -> WatchSignal {
    match signal {
        WatchSignal::Cont => WatchSignal::Int,
        WatchSignal::Int => WatchSignal::Term,
        WatchSignal::Term => WatchSignal::Kill,
        WatchSignal::Kill => WatchSignal::Kill,
        WatchSignal::Other(n) => WatchSignal::Other(n),
    }
}

/// Why the guard refused a death watch, as the sanity-check message.
pub open spec fn spec_reject_message(pid: i32, signal: WatchSignal) -> Seq<char> {
    if pid == -1 {
        "Invalid pid: -1!"@
    } else if pid == 0 {
        "Given pid: 0, there is no process to signal."@
    } else if pid == 1 {
        "A death watch must not target pid 1."@
    } else {
        "Unhandled death watch signal."@
    }
}

/// The structured alert, ready for a webhook transport to deliver.
#[derive(Debug)]
pub struct AlertPayload {
    /// Webhook receiving the POST.
    pub webhook_url: String,
    /// Channel the alert is addressed to.
    pub channel: String,
    /// Name the notifier posts under.
    pub username: String,
    /// Title of the alert.
    pub title: String,
    /// Author line of the alert.
    pub author_name: String,
    /// Accent colour of the alert.
    pub color: String,
    /// Fixed introduction above the fields.
    pub intro: String,
    /// What went wrong, in one line.
    pub message: String,
    /// The service descriptor.
    pub service_details: String,
    /// The reporting host's name.
    pub host_name: String,
    /// Kernel, release, machine and supervisor version of the host.
    pub host_facts: String,
    /// The failure's detail text.
    pub error_details: String,
    /// Footer, carrying the timestamp the caller supplies.
    pub footer: String,
}

/// A notification decision: deliberately skipped, or a payload to post.
#[derive(Debug)]
pub enum NotificationTask {
    /// The notifier is unconfigured; skipping is a success, not an error.
    Skipped,
    /// Post this payload to its webhook.
    Post { payload: AlertPayload },
}

impl Service {
    /// Outcome of reading the PID file, given the file's content or the
    /// read error.
    pub open spec fn spec_read_pid(self, content: Result<String, String>) -> Result<i32, Mortal> {
        match content {
            Ok(text) => match spec_parse_i32(spec_trim(text@)) {
                Some(pid) => Ok(pid),
                None => Err(Mortal::CheckPidfileMalformed { service: self }),
            },
            Err(cause) => Err(Mortal::CheckPidfileUnaccessible { service: self, cause }),
        }
    }

    /// The PID as a plain integer, collapsing every failure to `-1`.
    pub open spec fn spec_pid(self, content: Result<String, String>) -> i32 {
        match self.spec_read_pid(content) {
            Ok(pid) => pid,
            Err(_) => -1 as i32,
        }
    }

    /// Where a death watch begins: the guard refuses the unkillable PIDs
    /// `-1`, `0` and the init process `1`, and any signal off the ladder;
    /// otherwise the watch starts with an existence probe.
    pub open spec fn spec_death_watch_start(self, pid: i32, signal: WatchSignal) -> WatchState {
        if pid == -1 || pid == 0 || pid == 1 {
            WatchState::Rejected { pid, signal }
        } else {
            match signal {
                WatchSignal::Other(_) => WatchState::Rejected { pid, signal },
                _ => WatchState::NeedProbe { pid, signal },
            }
        }
    }

    /// One transition of the death watch. A probe finding the process gone
    /// ends the watch as already-interrupted; a delivery that ends the
    /// process ends it as interrupted; a surviving delivery escalates to
    /// the next rung; any event the state does not await is ignored.
    pub open spec fn spec_death_watch_step(self, state: WatchState, event: WatchEvent) -> WatchState {
        match (state, event) {
            (WatchState::NeedProbe { pid, signal }, WatchEvent::Probed { alive }) => {
                if !alive {
                    WatchState::Ended {
                        outcome: Ok(Mortal::OkPidAlreadyInterrupted { service: self, pid }),
                    }
                } else {
                    WatchState::NeedDelivery { pid, signal }
                }
            },
            (
                WatchState::NeedDelivery { pid, signal },
                WatchEvent::Delivered { delivered, alive_after },
            ) => {
                if delivered && !alive_after {
                    WatchState::Ended {
                        outcome: Ok(Mortal::OkPidInterrupted { service: self, pid }),
                    }
                } else {
                    WatchState::NeedProbe { pid, signal: spec_next_signal(signal) }
                }
            },
            (s, _) => s,
        }
    }

    /// The watch folded over a sequence of events.
    pub open spec fn spec_death_watch_run(self, state: WatchState, events: Seq<WatchEvent>) -> WatchState
        decreases events.len(),
    {
        if events.len() == 0 {
            state
        } else {
            self.spec_death_watch_run(self.spec_death_watch_step(state, events[0]), events.drop_first())
        }
    }

    /// What the embedding program must do in a state.
    pub open spec fn spec_death_watch_request(self, env: Env, state: WatchState) -> Option<
        WatchRequest,
    > {
        match state {
            WatchState::NeedProbe { pid, signal } => Some(WatchRequest::Probe { pid }),
            WatchState::NeedDelivery { pid, signal } => Some(
                WatchRequest::Deliver {
                    pid,
                    signal,
                    pause_ms: if signal == WatchSignal::Cont {
                        0
                    } else {
                        self.spec_deathwatches_interval(env)
                    },
                },
            ),
            _ => None,
        }
    }
}

/// An ended watch stays ended, whatever else is reported.
pub proof fn lemma_death_watch_ended_absorbs(
    svc: Service,
    outcome: Result<Mortal, Mortal>,
    events: Seq<WatchEvent>,
)
    ensures
        svc.spec_death_watch_run(WatchState::Ended { outcome }, events) == (WatchState::Ended {
            outcome,
        }),
    decreases events.len(),
{
    if events.len() > 0 {
        lemma_death_watch_ended_absorbs(svc, outcome, events.drop_first());
    }
}

/// A rejected watch stays rejected, whatever is reported.
pub proof fn lemma_death_watch_rejected_absorbs(
    svc: Service,
    pid: i32,
    signal: WatchSignal,
    events: Seq<WatchEvent>,
)
    ensures
        svc.spec_death_watch_run(WatchState::Rejected { pid, signal }, events) == (
        WatchState::Rejected { pid, signal }),
    decreases events.len(),
{
    if events.len() > 0 {
        lemma_death_watch_rejected_absorbs(svc, pid, signal, events.drop_first());
    }
}

/// A death watch on the PIDs `-1`, `0` and `1` is refused by the guard:
/// whatever events follow, it never probes, delivers, or ends otherwise.
pub proof fn lemma_death_watch_guard(
    svc: Service,
    pid: i32,
    signal: WatchSignal,
    events: Seq<WatchEvent>,
)
    requires
        pid == -1 || pid == 0 || pid == 1,
    ensures
        svc.spec_death_watch_run(svc.spec_death_watch_start(pid, signal), events) == (
        WatchState::Rejected { pid, signal }),
{
    lemma_death_watch_rejected_absorbs(svc, pid, signal, events);
}

/// A death watch whose first probe finds the process gone ends as
/// already-interrupted at once: no delivery was requested before that
/// probe, and later events change nothing.
pub proof fn lemma_death_watch_already_interrupted(
    svc: Service,
    env: Env,
    pid: i32,
    signal: WatchSignal,
    rest: Seq<WatchEvent>,
)
    requires
        pid != -1 && pid != 0 && pid != 1,
        !(signal matches WatchSignal::Other(_)),
    ensures
        svc.spec_death_watch_run(
            svc.spec_death_watch_start(pid, signal),
            seq![WatchEvent::Probed { alive: false }].add(rest),
        ) == (WatchState::Ended {
            outcome: Ok(Mortal::OkPidAlreadyInterrupted { service: svc, pid }),
        }),
        svc.spec_death_watch_request(env, svc.spec_death_watch_start(pid, signal)) == Some(
            WatchRequest::Probe { pid },
        ),
{
    let start = svc.spec_death_watch_start(pid, signal);
    let evs = seq![WatchEvent::Probed { alive: false }].add(rest);
    assert(evs[0] == (WatchEvent::Probed { alive: false }));
    assert(evs.drop_first() =~= rest);
    let ended = svc.spec_death_watch_step(start, evs[0]);
    lemma_death_watch_ended_absorbs(
        svc,
        Ok(Mortal::OkPidAlreadyInterrupted { service: svc, pid }),
        rest,
    );
}

/// Fold the notification transport's report back into an outcome: a
/// delivered post succeeds with the transport's message, a transport error
/// is the notification failure and never anything worse.
pub fn notification_outcome(sent: Result<String, String>) -> (r: Result<String, Mortal>)
    ensures
        match sent {
            Ok(msg) => r == Ok::<String, Mortal>(msg),
            Err(cause) => r == Err::<String, Mortal>(Mortal::NotificationFailure { cause }),
        },
{
    match sent {
        Ok(msg) => Ok(msg),
        Err(cause) => Err(Mortal::NotificationFailure { cause }),
    }
}

/// System-facing lifecycle operations of a service.
pub trait Svarog {
    fn hostname(&self) -> String;

    fn sys_info(&self) -> SysInfo;

    fn notification(&self, env: &Env, message: String, error: String, stamp: String)
        -> NotificationTask;

    fn read_pid(&self, content: Result<String, String>) -> Result<i32, Mortal>;

    fn pid(&self, content: Result<String, String>) -> i32;

    fn death_watch_start(&self, pid: i32, signal: WatchSignal) -> WatchState;

    fn death_watch_step(&self, state: WatchState, event: WatchEvent) -> WatchState;

    fn death_watch_request(&self, env: &Env, state: &WatchState) -> Option<WatchRequest>;

    fn death_watch(&self, pid: i32, signal: WatchSignal, events: &Vec<WatchEvent>) -> Result<
        Mortal,
        Mortal,
    >;
}

impl Svarog for Service {
    /// The host's name; what the host reports cannot be specified further.
    fn hostname(&self) -> String {
        query_hostname()
    }

    /// The host's kernel facts; falls back to an empty record rather than
    /// failing the calling check.
    fn sys_info(&self) -> SysInfo {
        query_sys_info()
    }

    /// Decide a notification: with an unconfigured webhook or channel the
    /// task is deliberately skipped and nothing is handed to a transport;
    /// otherwise the structured alert payload is built. The library itself
    /// never posts; the embedding program delivers `Post` payloads.
    fn notification(&self, env: &Env, message: String, error: String, stamp: String) -> (t:
        NotificationTask)
        ensures
            match t {
                NotificationTask::Skipped => self.spec_slack_webhook_url(*env).len() == 0
                    || self.spec_slack_alert_channel(*env).len() == 0,
                NotificationTask::Post { payload } => self.spec_slack_webhook_url(*env).len() > 0
                    && self.spec_slack_alert_channel(*env).len() > 0 && payload.webhook_url@
                    == self.spec_slack_webhook_url(*env) && payload.channel@
                    == self.spec_slack_alert_channel(*env) && payload.username@
                    == DEFAULT_NOTIFICATION_NAME@ && payload.title@ == "ALERT NOTIFICATION"@
                    && payload.author_name@ == DEFAULT_NOTIFICATION_NAME@ && payload.color@
                    == "#FF3d41"@ && payload.intro@
                    == "Unstable service detected. Deities will attempt to solve this problem automatically."@
                    && payload.message == message && payload.service_details@
                    == self.spec_describe() && payload.error_details == error && payload.footer
                    == stamp,
            },
    {
        let webhook_url = self.slack_webhook_url(env);
        let channel = self.slack_alert_channel(env);
        if webhook_url.as_str().unicode_len() == 0 || channel.as_str().unicode_len() == 0 {
            return NotificationTask::Skipped;
        }
        let info = self.sys_info();
        let mut host_facts = String::new();
        host_facts.append(info.sysname.as_str());
        host_facts.append(" / ");
        host_facts.append(info.release.as_str());
        host_facts.append(" / ");
        host_facts.append(info.machine.as_str());
        host_facts.append(" / ");
        host_facts.append(VERSION);
        NotificationTask::Post {
            payload: AlertPayload {
                webhook_url,
                channel,
                username: String::from_str(DEFAULT_NOTIFICATION_NAME),
                title: String::from_str("ALERT NOTIFICATION"),
                author_name: String::from_str(DEFAULT_NOTIFICATION_NAME),
                color: String::from_str("#FF3d41"),
                intro: String::from_str(
                    "Unstable service detected. Deities will attempt to solve this problem automatically.",
                ),
                message,
                service_details: self.describe(),
                host_name: info.nodename,
                host_facts,
                error_details: error,
                footer: stamp,
            },
        }
    }

    /// Parse the PID file's content: unreadable becomes unaccessible, text
    /// that is no integer becomes malformed, otherwise the PID.
    fn read_pid(&self, content: Result<String, String>) -> (r: Result<i32, Mortal>)
        ensures
            r == self.spec_read_pid(content),
    {
        match content {
            Ok(text) => {
                let trimmed = trim_str(text.as_str());
                match parse_i32(trimmed.as_str()) {
                    Some(pid) => Ok(pid),
                    None => Err(Mortal::CheckPidfileMalformed { service: self.clone() }),
                }
            },
            Err(cause) => Err(Mortal::CheckPidfileUnaccessible { service: self.clone(), cause }),
        }
    }

    /// The PID as a plain integer; every failure collapses to `-1`.
    fn pid(&self, content: Result<String, String>) -> (r: i32)
        ensures
            r == self.spec_pid(content),
    {
        match self.read_pid(content) {
            Ok(pid) => pid,
            Err(_) => -1,
        }
    }

    /// Open a death watch; see [`Service::spec_death_watch_start`].
    fn death_watch_start(&self, pid: i32, signal: WatchSignal) -> (r: WatchState)
        ensures
            r == self.spec_death_watch_start(pid, signal),
    {
        if pid == -1 || pid == 0 || pid == 1 {
            WatchState::Rejected { pid, signal }
        } else {
            match signal {
                WatchSignal::Other(_) => WatchState::Rejected { pid, signal },
                _ => WatchState::NeedProbe { pid, signal },
            }
        }
    }

    /// Advance a death watch by one reported event; see
    /// [`Service::spec_death_watch_step`].
    fn death_watch_step(&self, state: WatchState, event: WatchEvent) -> (r: WatchState)
        ensures
            r == self.spec_death_watch_step(state, event),
    {
        match (state, event) {
            (WatchState::NeedProbe { pid, signal }, WatchEvent::Probed { alive }) => {
                if !alive {
                    WatchState::Ended {
                        outcome: Ok(
                            Mortal::OkPidAlreadyInterrupted { service: self.clone(), pid },
                        ),
                    }
                } else {
                    WatchState::NeedDelivery { pid, signal }
                }
            },
            (
                WatchState::NeedDelivery { pid, signal },
                WatchEvent::Delivered { delivered, alive_after },
            ) => {
                if delivered && !alive_after {
                    WatchState::Ended {
                        outcome: Ok(Mortal::OkPidInterrupted { service: self.clone(), pid }),
                    }
                } else {
                    let next = match signal {
                        WatchSignal::Cont => WatchSignal::Int,
                        WatchSignal::Int => WatchSignal::Term,
                        WatchSignal::Term => WatchSignal::Kill,
                        WatchSignal::Kill => WatchSignal::Kill,
                        WatchSignal::Other(n) => WatchSignal::Other(n),
                    };
                    WatchState::NeedProbe { pid, signal: next }
                }
            },
            (s, _) => s,
        }
    }

    /// What the embedding program must do next: probe, or pause (except on
    /// the ladder's first rung) and deliver the current signal.
    fn death_watch_request(&self, env: &Env, state: &WatchState) -> (r: Option<WatchRequest>)
        ensures
            r == self.spec_death_watch_request(*env, *state),
    {
        match state {
            WatchState::NeedProbe { pid, signal } => Some(WatchRequest::Probe { pid: *pid }),
            WatchState::NeedDelivery { pid, signal } => {
                let pause_ms: u64 = if *signal == WatchSignal::Cont {
                    0
                } else {
                    self.deathwatches_interval(env)
                };
                Some(WatchRequest::Deliver { pid: *pid, signal: *signal, pause_ms })
            },
            _ => None,
        }
    }

    /// Run a death watch over a recorded sequence of events: the guard's
    /// rejection surfaces as the sanity-check failure, an ended watch
    /// yields its outcome, and a watch the events never settle is itself a
    /// sanity-check failure.
    fn death_watch(&self, pid: i32, signal: WatchSignal, events: &Vec<WatchEvent>) -> (r: Result<
        Mortal,
        Mortal,
    >)
        ensures
            ({
                let fin = self.spec_death_watch_run(
                    self.spec_death_watch_start(pid, signal),
                    events@,
                );
                match fin {
                    WatchState::Ended { outcome } => r == outcome,
                    WatchState::Rejected { pid: p, signal: s } => match r {
                        Err(Mortal::SanityCheckFailure { message }) => message@
                            == spec_reject_message(p, s),
                        _ => false,
                    },
                    _ => match r {
                        Err(Mortal::SanityCheckFailure { message }) => message@
                            == "The death watch ran out of events."@,
                        _ => false,
                    },
                }
            }),
    {
        let mut state = self.death_watch_start(pid, signal);
        let mut i: usize = 0;
        proof {
            assert(events@.subrange(0, events@.len() as int) =~= events@);
        }
        while i < events.len()
            invariant
                0 <= i <= events@.len(),
                self.spec_death_watch_run(self.spec_death_watch_start(pid, signal), events@)
                    == self.spec_death_watch_run(
                    state,
                    events@.subrange(i as int, events@.len() as int),
                ),
            decreases events@.len() - i,
        {
            proof {
                let rest = events@.subrange(i as int, events@.len() as int);
                assert(rest[0] == events@[i as int]);
                assert(rest.drop_first() =~= events@.subrange(i + 1, events@.len() as int));
            }
            state = self.death_watch_step(state, events[i]);
            i += 1;
        }
        proof {
            assert(events@.subrange(i as int, events@.len() as int) =~= Seq::<WatchEvent>::empty());
        }
        match state {
            WatchState::Ended { outcome } => outcome,
            WatchState::Rejected { pid: p, signal: s } => {
                let message: String = if p == -1 {
                    String::from_str("Invalid pid: -1!")
                } else if p == 0 {
                    String::from_str("Given pid: 0, there is no process to signal.")
                } else if p == 1 {
                    String::from_str("A death watch must not target pid 1.")
                } else {
                    String::from_str("Unhandled death watch signal.")
                };
                Err(Mortal::SanityCheckFailure { message })
            },
            _ => Err(
                Mortal::SanityCheckFailure {
                    message: String::from_str("The death watch ran out of events."),
                },
            ),
        }
    }
}

} // verus!
