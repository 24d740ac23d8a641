//! Perun: the health-check engine. The four check kinds run in a fixed
//! order — disk, UNIX socket, PID file, URLs — and the first failure
//! short-circuits the rest. Probes that need the operating system arrive
//! as events; URL checks run here through libcurl. The whole reduction to
//! a single outcome is verified.

use vstd::prelude::*;
use vstd::string::*;

use crate::common::CACERT_PEM;
use crate::init_fields::Env;
use crate::init_fields::InitFields;
use crate::mortal::Mortal;
use crate::parse::line_len;
use crate::parse::lemma_line_len_range;
use crate::parse::spec_fields;
use crate::parse::spec_parse_i64;
use crate::parse::parse_i64;
use crate::parse::split_fields;
use crate::service::Service;
use crate::svarog::Svarog;

verus! {

/// Declares libcurl's easy handle so the URL checker can hold one; its
/// contents stay opaque.
#[verifier::external_type_specification]
#[verifier::external_body]
pub struct ExEasy(curl::easy::Easy);

/// Column layout of the disk-usage report: some platforms report free
/// inodes in their tabular output, others do not.
#[derive(Debug, Clone, Copy, PartialEq, Eq, Structural)]
pub enum DiskLayout {
    /// The report carries no usable inode column.
    SpaceOnly,
    /// The report carries the free-inode count at its fixed column.
    SpaceAndInodes,
}

/// The captured disk-usage report, or why there is none.
#[derive(Debug)]
pub enum DiskReport {
    /// The disk-usage utility could not be run.
    CommandFailed,
    /// Its output was not valid text.
    Unreadable,
    /// Its output, as captured.
    Output { text: String },
}

/// Outcome of probing the service's UNIX socket.
#[derive(Debug)]
pub enum SocketProbe {
    /// The socket did not accept a connection.
    ConnectFailed { cause: String },
    /// The socket connected but refused the probe message.
    WriteFailed { cause: String },
    /// The socket accepted the probe message.
    Accepted,
}

/// What the embedding program reports back to the check engine.
#[derive(Debug)]
pub enum CheckEvent {
    /// Free space (KiB) and free inodes of the root filesystem, as
    /// [`Perun::check_disk_space`] extracts them.
    Disk { space_kib: i64, inodes: Option<i64> },
    /// Outcome of the UNIX socket probe.
    Socket { probe: SocketProbe },
    /// The PID file's content, or the error text of the failed read.
    PidRead { content: Result<String, String> },
    /// Whether the PID's process exists.
    PidAlive { alive: bool },
    /// Outcome of [`Perun::try_urls`].
    Urls { result: Result<Mortal, Mortal> },
}

/// State of one service's check sequence.
pub enum CheckState {
    /// The engine awaits the disk statistics.
    NeedDisk,
    /// The engine awaits the UNIX socket probe.
    NeedSocket,
    /// The engine awaits the PID file's content.
    NeedPidRead,
    /// The engine awaits the existence probe of this PID.
    NeedPidAlive { pid: i32 },
    /// The engine awaits the URL check results.
    NeedUrls,
    /// The checks are reduced to their outcome.
    Settled { outcome: Result<Mortal, Mortal> },
}

/// What the embedding program must do next for the check engine.
#[derive(Debug)]
pub enum CheckRequest {
    /// Capture the disk-usage report and reduce it with
    /// [`Perun::check_disk_space`].
    Disk,
    /// Connect to this socket and write the probe message.
    Socket { path: String },
    /// Read this PID file.
    PidRead { path: String },
    /// Probe this PID for existence, without delivering a signal.
    PidAlive { pid: i32 },
    /// Run [`Perun::try_urls`].
    Urls,
}

/// Why one URL check failed.
pub enum UrlFault {
    /// The request could not be constructed.
    Setup { cause: String },
    /// The request ran and failed.
    Request { cause: String },
}

impl Service {
    /// A UNIX socket check is configured.
    pub open spec fn spec_has_socket_check(self) -> bool {
        self.spec_unix_socket().len() > 0
    }

    /// A PID file check is configured.
    pub open spec fn spec_has_pid_check(self) -> bool {
        self.spec_pid_file().len() > 0
    }

    /// A URL check is configured.
    pub open spec fn spec_has_url_check(self) -> bool {
        self.spec_urls().len() > 0
    }

    /// How many checks a full pass performs: the unconditional disk check
    /// plus one per configured target.
    pub open spec fn spec_checks_amount(self) -> int {
        1 + (if self.spec_has_socket_check() {
            1int
        } else {
            0int
        }) + (if self.spec_has_pid_check() {
            1int
        } else {
            0int
        }) + (if self.spec_has_url_check() {
            1int
        } else {
            0int
        })
    }

    /// Free KiB truncated to MiB, as integer division rounds toward zero.
    pub open spec fn spec_mib(kib: int) -> int {
        if kib >= 0 {
            kib / 1024
        } else {
            -((-kib) / 1024)
        }
    }

    /// The disk check's verdict on given statistics: too little space,
    /// else too few inodes (where the platform reports them), else passed.
    pub open spec fn spec_try_disk_check(self, env: Env, space_kib: i64, inodes: Option<i64>) -> Result<
        Mortal,
        Mortal,
    > {
        if Self::spec_mib(space_kib as int) < self.spec_disk_minimum_space(env) {
            Err(Mortal::CheckDiskSpace { service: self })
        } else if match inodes {
            Some(n) => n < self.spec_disk_minimum_inodes(env),
            None => false,
        } {
            Err(Mortal::CheckDiskInodes { service: self })
        } else {
            Ok(Mortal::OkDiskCheck { service: self })
        }
    }

    /// The socket check's verdict on a probe outcome.
    pub open spec fn spec_try_unix_socket(self, probe: SocketProbe) -> Result<Mortal, Mortal> {
        match probe {
            SocketProbe::ConnectFailed { cause } => Err(
                Mortal::CheckUnixSocketMissing { service: self, cause },
            ),
            SocketProbe::WriteFailed { cause } => Err(
                Mortal::CheckUnixSocket { service: self, cause },
            ),
            SocketProbe::Accepted => Ok(Mortal::OkUnixSockCheck { service: self }),
        }
    }

    /// The PID check's verdict on an existence probe.
    pub open spec fn spec_try_pid_file(self, pid: i32, alive: bool) -> Result<Mortal, Mortal> {
        if alive {
            Ok(Mortal::OkPidAlive { service: self, pid })
        } else {
            Err(Mortal::CheckPidDead { service: self, pid })
        }
    }

    /// The final state of a full pass: with no target configured at all
    /// the service cannot be supervised; otherwise every check passed.
    pub open spec fn spec_finish(self) -> CheckState {
        if !self.spec_has_socket_check() && !self.spec_has_pid_check()
            && !self.spec_has_url_check() {
            CheckState::Settled { outcome: Err(Mortal::CheckNoServiceChecks { service: self }) }
        } else {
            CheckState::Settled {
                outcome: Ok(
                    Mortal::OkAllChecks { service: self, amount: self.spec_checks_amount() as i32 },
                ),
            }
        }
    }

    /// The stage after a passed PID check: URLs if configured, else done.
    pub open spec fn spec_after_pid(self) -> CheckState {
        if self.spec_has_url_check() {
            CheckState::NeedUrls
        } else {
            self.spec_finish()
        }
    }

    /// The stage after a passed socket check: PID file if configured.
    pub open spec fn spec_after_socket(self) -> CheckState {
        if self.spec_has_pid_check() {
            CheckState::NeedPidRead
        } else {
            self.spec_after_pid()
        }
    }

    /// The stage after a passed disk check: socket if configured.
    pub open spec fn spec_after_disk(self) -> CheckState {
        if self.spec_has_socket_check() {
            CheckState::NeedSocket
        } else {
            self.spec_after_socket()
        }
    }

    /// One transition of the check engine: the awaited event is reduced by
    /// the matching check, a failure settles the sequence at once, a pass
    /// advances to the next configured stage, and any event the state does
    /// not await is ignored.
    pub open spec fn spec_checks_step(self, env: Env, state: CheckState, event: CheckEvent) -> CheckState {
        match (state, event) {
            (CheckState::NeedDisk, CheckEvent::Disk { space_kib, inodes }) => {
                match self.spec_try_disk_check(env, space_kib, inodes) {
                    Ok(_) => self.spec_after_disk(),
                    Err(m) => CheckState::Settled { outcome: Err(m) },
                }
            },
            (CheckState::NeedSocket, CheckEvent::Socket { probe }) => {
                match self.spec_try_unix_socket(probe) {
                    Ok(_) => self.spec_after_socket(),
                    Err(m) => CheckState::Settled { outcome: Err(m) },
                }
            },
            (CheckState::NeedPidRead, CheckEvent::PidRead { content }) => {
                match self.spec_read_pid(content) {
                    Ok(pid) => CheckState::NeedPidAlive { pid },
                    Err(m) => CheckState::Settled { outcome: Err(m) },
                }
            },
            (CheckState::NeedPidAlive { pid }, CheckEvent::PidAlive { alive }) => {
                match self.spec_try_pid_file(pid, alive) {
                    Ok(_) => self.spec_after_pid(),
                    Err(m) => CheckState::Settled { outcome: Err(m) },
                }
            },
            (CheckState::NeedUrls, CheckEvent::Urls { result }) => {
                match result {
                    Ok(_) => self.spec_finish(),
                    Err(m) => CheckState::Settled { outcome: Err(m) },
                }
            },
            (s, _) => s,
        }
    }

    /// The check engine folded over a sequence of events.
    pub open spec fn spec_checks_run(self, env: Env, state: CheckState, events: Seq<CheckEvent>) -> CheckState
        decreases events.len(),
    {
        if events.len() == 0 {
            state
        } else {
            self.spec_checks_run(env, self.spec_checks_step(env, state, events[0]), events.drop_first())
        }
    }

    /// What [`Perun::check_disk_space`] extracts from a captured report.
    pub open spec fn spec_disk_stats(report: DiskReport, layout: DiskLayout) -> (i64, Option<i64>) {
        match report {
            DiskReport::CommandFailed => ((-1) as i64, Some((-1) as i64)),
            DiskReport::Unreadable => ((-2) as i64, Some((-2) as i64)),
            DiskReport::Output { text } => {
                let fields = spec_fields(Self::spec_after_first_line(text@));
                let space = Self::spec_field_i64(fields, 3);
                match layout {
                    DiskLayout::SpaceOnly => (space, None),
                    DiskLayout::SpaceAndInodes => (space, Some(Self::spec_field_i64(fields, 6))),
                }
            },
        }
    }

    /// The report with its header line removed.
    pub open spec fn spec_after_first_line(s: Seq<char>) -> Seq<char> {
        let k = line_len(s) as int;
        if k < s.len() {
            s.subrange(k + 1, s.len() as int)
        } else {
            s
        }
    }

    /// The indexed field parsed as `i64`: `-1` when it is no number, `0`
    /// when the report has too few fields.
    pub open spec fn spec_field_i64(fields: Seq<Seq<char>>, i: int) -> i64 {
        if fields.len() > i {
            match spec_parse_i64(fields[i]) {
                Some(n) => n,
                None => (-1) as i64,
            }
        } else {
            0
        }
    }
}

/// Health checks of a service.
pub trait Perun {
    fn try_pid_file(&self, pid: i32, alive: bool) -> Result<Mortal, Mortal>;

    fn try_unix_socket(&self, probe: SocketProbe) -> Result<Mortal, Mortal>;

    fn try_urls(&self, env: &Env) -> Result<Mortal, Mortal>;

    fn try_disk_check(&self, env: &Env, space_kib: i64, inodes: Option<i64>) -> Result<
        Mortal,
        Mortal,
    >;

    fn checks_for(&self, env: &Env, events: Vec<CheckEvent>) -> Result<Mortal, Mortal>;

    fn check_disk_space(&self, report: &DiskReport, layout: DiskLayout) -> (i64, Option<i64>);

    fn checks_step(&self, env: &Env, state: CheckState, event: CheckEvent) -> CheckState;

    fn checks_request(&self, state: &CheckState) -> Option<CheckRequest>;
}

impl Perun for Service {
    /// An existing process passes; a vanished one is the dead-PID failure.
    fn try_pid_file(&self, pid: i32, alive: bool) -> (r: Result<Mortal, Mortal>)
        ensures
            r == self.spec_try_pid_file(pid, alive),
    {
        if alive {
            Ok(Mortal::OkPidAlive { service: self.clone(), pid })
        } else {
            Err(Mortal::CheckPidDead { service: self.clone(), pid })
        }
    }

    /// Reduce the socket probe: connection refused is the missing-socket
    /// failure, a refused write the socket failure, else the check passes.
    fn try_unix_socket(&self, probe: SocketProbe) -> (r: Result<Mortal, Mortal>)
        ensures
            r == self.spec_try_unix_socket(probe),
    {
        match probe {
            SocketProbe::ConnectFailed { cause } => Err(
                Mortal::CheckUnixSocketMissing { service: self.clone(), cause },
            ),
            SocketProbe::WriteFailed { cause } => Err(
                Mortal::CheckUnixSocket { service: self.clone(), cause },
            ),
            SocketProbe::Accepted => Ok(Mortal::OkUnixSockCheck { service: self.clone() }),
        }
    }

    /// GET every configured URL in order through libcurl, with the
    /// resolved timeout, TCP no-delay, redirects followed and TLS fully
    /// verified. The first failure short-circuits the rest: a request that
    /// could not be constructed is the URL-fail outcome, a failed transfer
    /// names its URL. With no URLs configured nothing runs and the check
    /// passes. What the network answers cannot be specified further.
    fn try_urls(&self, env: &Env) -> (r: Result<Mortal, Mortal>)
        ensures
            self.spec_urls().len() == 0 ==> r == Ok::<Mortal, Mortal>(
                Mortal::OkUrlsChecks { service: *self },
            ),
            match r {
                Ok(m) => m == (Mortal::OkUrlsChecks { service: *self }),
                Err(m) => match m {
                    Mortal::CheckURL { service, url, cause } => service == *self
                        && self.spec_urls().contains(url),
                    Mortal::CheckURLFail { service, cause } => service == *self,
                    _ => false,
                },
            },
    {
        let urls = self.urls();
        let timeout_ms = self.checks_url_timeout(env);
        let mut i: usize = 0;
        while i < urls.len()
            invariant
                0 <= i <= urls@.len(),
                urls@ == self.spec_urls(),
            decreases urls@.len() - i,
        {
            let url = urls[i].clone();
            match check_one_url(url.as_str(), timeout_ms) {
                Ok(()) => {},
                Err(UrlFault::Setup { cause }) => {
                    return Err(Mortal::CheckURLFail { service: self.clone(), cause });
                },
                Err(UrlFault::Request { cause }) => {
                    proof {
                        assert(self.spec_urls()[i as int] == url);
                    }
                    return Err(Mortal::CheckURL { service: self.clone(), url, cause });
                },
            }
            i += 1;
        }
        Ok(Mortal::OkUrlsChecks { service: self.clone() })
    }

    /// Compare disk statistics against the configured minimums; space is
    /// judged in whole MiB, inodes only where the platform reports them.
    fn try_disk_check(&self, env: &Env, space_kib: i64, inodes: Option<i64>) -> (r: Result<
        Mortal,
        Mortal,
    >)
        ensures
            r == self.spec_try_disk_check(*env, space_kib, inodes),
    {
        let mib: i64 = if space_kib >= 0 {
            (space_kib as u64 / 1024) as i64
        } else {
            let mag = (-(space_kib as i128)) as u128;
            -((mag / 1024) as i64)
        };
        assert(mib == Self::spec_mib(space_kib as int));
        if mib < self.disk_minimum_space(env) {
            Err(Mortal::CheckDiskSpace { service: self.clone() })
        } else {
            let inode_short = match inodes {
                Some(n) => n < self.disk_minimum_inodes(env),
                None => false,
            };
            if inode_short {
                Err(Mortal::CheckDiskInodes { service: self.clone() })
            } else {
                Ok(Mortal::OkDiskCheck { service: self.clone() })
            }
        }
    }

    /// Run the whole check sequence over a recorded sequence of probe
    /// events: the settled outcome, or the sanity-check failure when the
    /// events do not settle it.
    fn checks_for(&self, env: &Env, events: Vec<CheckEvent>) -> (r: Result<Mortal, Mortal>)
        ensures
            ({
                let fin = self.spec_checks_run(*env, CheckState::NeedDisk, events@);
                match fin {
                    CheckState::Settled { outcome } => r == outcome,
                    _ => match r {
                        Err(Mortal::SanityCheckFailure { message }) => message@
                            == "The check engine ran out of probe events."@,
                        _ => false,
                    },
                }
            }),
    {
        let ghost orig = events@;
        let mut state = CheckState::NeedDisk;
        let mut evs = events;
        proof {
            assert(orig.subrange(0, orig.len() as int) =~= orig);
        }
        while evs.len() > 0
            invariant
                self.spec_checks_run(*env, CheckState::NeedDisk, orig) == self.spec_checks_run(
                    *env,
                    state,
                    evs@,
                ),
            decreases evs@.len(),
        {
            let ghost before = evs@;
            let e = evs.remove(0);
            proof {
                assert(before.remove(0) =~= before.drop_first());
            }
            state = self.checks_step(env, state, e);
        }
        match state {
            CheckState::Settled { outcome } => outcome,
            _ => Err(
                Mortal::SanityCheckFailure {
                    message: String::from_str("The check engine ran out of probe events."),
                },
            ),
        }
    }

    /// Extract free space (KiB) and, where the layout carries them, free
    /// inodes from the captured disk-usage report: the header line is
    /// dropped, the remainder splits into whitespace-separated fields, and
    /// the fixed columns are read. A failed capture keeps its sentinel.
    fn check_disk_space(&self, report: &DiskReport, layout: DiskLayout) -> (r: (i64, Option<i64>))
        ensures
            r == Self::spec_disk_stats(*report, layout),
    {
        match report {
            DiskReport::CommandFailed => (-1, Some(-1)),
            DiskReport::Unreadable => (-2, Some(-2)),
            DiskReport::Output { text } => {
                let s = text.as_str();
                let len = s.unicode_len();
                let mut k: usize = 0;
                while k < len && s.get_char(k) != '\n'
                    invariant
                        0 <= k <= len,
                        len == s@.len(),
                        forall|j: int| 0 <= j < k ==> #[trigger] s@[j] != '\n',
                    decreases len - k,
                {
                    k += 1;
                }
                proof {
                    lemma_line_len_range(s@, k as int);
                }
                let body: &str = if k < len {
                    s.substring_char(k + 1, len)
                } else {
                    s
                };
                proof {
                    assert(body@ == Self::spec_after_first_line(text@));
                }
                let fields = split_fields(body);
                let space = field_i64(&fields, 3);
                match layout {
                    DiskLayout::SpaceOnly => (space, None),
                    DiskLayout::SpaceAndInodes => (space, Some(field_i64(&fields, 6))),
                }
            },
        }
    }

    /// Advance the check engine by one reported event; see
    /// [`Service::spec_checks_step`].
    fn checks_step(&self, env: &Env, state: CheckState, event: CheckEvent) -> (r: CheckState)
        ensures
            r == self.spec_checks_step(*env, state, event),
    {
        match (state, event) {
            (CheckState::NeedDisk, CheckEvent::Disk { space_kib, inodes }) => {
                match self.try_disk_check(env, space_kib, inodes) {
                    Ok(_) => self.after_disk(),
                    Err(m) => CheckState::Settled { outcome: Err(m) },
                }
            },
            (CheckState::NeedSocket, CheckEvent::Socket { probe }) => {
                match self.try_unix_socket(probe) {
                    Ok(_) => self.after_socket(),
                    Err(m) => CheckState::Settled { outcome: Err(m) },
                }
            },
            (CheckState::NeedPidRead, CheckEvent::PidRead { content }) => {
                match self.read_pid(content) {
                    Ok(pid) => CheckState::NeedPidAlive { pid },
                    Err(m) => CheckState::Settled { outcome: Err(m) },
                }
            },
            (CheckState::NeedPidAlive { pid }, CheckEvent::PidAlive { alive }) => {
                match self.try_pid_file(pid, alive) {
                    Ok(_) => self.after_pid(),
                    Err(m) => CheckState::Settled { outcome: Err(m) },
                }
            },
            (CheckState::NeedUrls, CheckEvent::Urls { result }) => {
                match result {
                    Ok(_) => self.finish_state(),
                    Err(m) => CheckState::Settled { outcome: Err(m) },
                }
            },
            (s, _) => s,
        }
    }

    /// What the embedding program must do in a state: each request names
    /// its target, and a settled sequence requests nothing.
    fn checks_request(&self, state: &CheckState) -> (r: Option<CheckRequest>)
        ensures
            match *state {
                CheckState::NeedDisk => r == Some(CheckRequest::Disk),
                CheckState::NeedSocket => match r {
                    Some(CheckRequest::Socket { path }) => path@ == self.spec_unix_socket(),
                    _ => false,
                },
                CheckState::NeedPidRead => match r {
                    Some(CheckRequest::PidRead { path }) => path@ == self.spec_pid_file(),
                    _ => false,
                },
                CheckState::NeedPidAlive { pid } => r == Some(CheckRequest::PidAlive { pid }),
                CheckState::NeedUrls => r == Some(CheckRequest::Urls),
                CheckState::Settled { .. } => r is None,
            },
    {
        match state {
            CheckState::NeedDisk => Some(CheckRequest::Disk),
            CheckState::NeedSocket => Some(CheckRequest::Socket { path: self.unix_socket() }),
            CheckState::NeedPidRead => Some(CheckRequest::PidRead { path: self.pid_file() }),
            CheckState::NeedPidAlive { pid } => Some(CheckRequest::PidAlive { pid: *pid }),
            CheckState::NeedUrls => Some(CheckRequest::Urls),
            CheckState::Settled { .. } => None,
        }
    }
}

impl Service {
    /// A UNIX socket check is configured.
    fn has_socket_check(&self) -> (r: bool)
        ensures
            r == self.spec_has_socket_check(),
    {
        self.unix_socket().as_str().unicode_len() > 0
    }

    /// A PID file check is configured.
    fn has_pid_check(&self) -> (r: bool)
        ensures
            r == self.spec_has_pid_check(),
    {
        self.pid_file().as_str().unicode_len() > 0
    }

    /// A URL check is configured.
    fn has_url_check(&self) -> (r: bool)
        ensures
            r == self.spec_has_url_check(),
    {
        self.urls().len() > 0
    }

    /// Settle a full pass; see [`Service::spec_finish`].
    fn finish_state(&self) -> (r: CheckState)
        ensures
            r == self.spec_finish(),
    {
        let socket = self.has_socket_check();
        let pid = self.has_pid_check();
        let url = self.has_url_check();
        if !socket && !pid && !url {
            CheckState::Settled {
                outcome: Err(Mortal::CheckNoServiceChecks { service: self.clone() }),
            }
        } else {
            let mut amount: i32 = 1;
            if socket {
                amount = amount + 1;
            }
            if pid {
                amount = amount + 1;
            }
            if url {
                amount = amount + 1;
            }
            CheckState::Settled {
                outcome: Ok(Mortal::OkAllChecks { service: self.clone(), amount }),
            }
        }
    }

    /// The stage after a passed PID check.
    fn after_pid(&self) -> (r: CheckState)
        ensures
            r == self.spec_after_pid(),
    {
        if self.has_url_check() {
            CheckState::NeedUrls
        } else {
            self.finish_state()
        }
    }

    /// The stage after a passed socket check.
    fn after_socket(&self) -> (r: CheckState)
        ensures
            r == self.spec_after_socket(),
    {
        if self.has_pid_check() {
            CheckState::NeedPidRead
        } else {
            self.after_pid()
        }
    }

    /// The stage after a passed disk check.
    fn after_disk(&self) -> (r: CheckState)
        ensures
            r == self.spec_after_disk(),
    {
        if self.has_socket_check() {
            CheckState::NeedSocket
        } else {
            self.after_socket()
        }
    }
}

/// The indexed field of the split report as `i64`; see
/// [`Service::spec_field_i64`].
fn field_i64(fields: &Vec<String>, i: usize) -> (r: i64)
    ensures
        r == Service::spec_field_i64(fields.deep_view(), i as int),
{
    if fields.len() > i {
        proof {
            assert(fields.deep_view()[i as int] == fields@[i as int]@);
        }
        match parse_i64(fields[i].as_str()) {
            Some(n) => n,
            None => -1 as i64,
        }
    } else {
        0
    }
}

/// Configure and run one GET request through libcurl.
fn check_one_url(url: &str, timeout_ms: u64) -> Result<(), UrlFault> {
    let mut easy = easy_new();
    if let Err(cause) = easy_connect_timeout(&mut easy, timeout_ms) {
        return Err(UrlFault::Setup { cause });
    }
    if let Err(cause) = easy_timeout(&mut easy, timeout_ms) {
        return Err(UrlFault::Setup { cause });
    }
    if let Err(cause) = easy_dns_cache_timeout(&mut easy, timeout_ms) {
        return Err(UrlFault::Setup { cause });
    }
    if let Err(cause) = easy_tcp_nodelay(&mut easy, true) {
        return Err(UrlFault::Setup { cause });
    }
    if let Err(cause) = easy_follow_location(&mut easy, true) {
        return Err(UrlFault::Setup { cause });
    }
    if let Err(cause) = easy_ssl_verify_host(&mut easy, true) {
        return Err(UrlFault::Setup { cause });
    }
    if let Err(cause) = easy_ssl_verify_peer(&mut easy, true) {
        return Err(UrlFault::Setup { cause });
    }
    if let Err(cause) = easy_cainfo(&mut easy, CACERT_PEM) {
        return Err(UrlFault::Setup { cause });
    }
    if let Err(cause) = easy_url(&mut easy, url) {
        return Err(UrlFault::Setup { cause });
    }
    match easy_perform(&easy) {
        Ok(()) => Ok(()),
        Err(cause) => Err(UrlFault::Request { cause }),
    }
}

/// Relies on `curl::easy::Easy::new`: a fresh easy handle; aborts only if
/// libcurl cannot initialise at all, as allocation does.
#[verifier::external_body]
fn easy_new() -> curl::easy::Easy {
    curl::easy::Easy::new()
}

/// Relies on `curl::easy::Easy::connect_timeout`: sets the connect
/// timeout.
#[verifier::external_body]
fn easy_connect_timeout(easy: &mut curl::easy::Easy, ms: u64) -> Result<(), String> {
    easy.connect_timeout(std::time::Duration::from_millis(ms)).map_err(|e| format!("{}", e))
}

/// Relies on `curl::easy::Easy::timeout`: sets the whole-transfer timeout.
#[verifier::external_body]
fn easy_timeout(easy: &mut curl::easy::Easy, ms: u64) -> Result<(), String> {
    easy.timeout(std::time::Duration::from_millis(ms)).map_err(|e| format!("{}", e))
}

/// Relies on `curl::easy::Easy::dns_cache_timeout`: sets the DNS cache
/// timeout.
#[verifier::external_body]
fn easy_dns_cache_timeout(easy: &mut curl::easy::Easy, ms: u64) -> Result<(), String> {
    easy.dns_cache_timeout(std::time::Duration::from_millis(ms)).map_err(|e| format!("{}", e))
}

/// Relies on `curl::easy::Easy::tcp_nodelay`: toggles TCP no-delay.
#[verifier::external_body]
fn easy_tcp_nodelay(easy: &mut curl::easy::Easy, enable: bool) -> Result<(), String> {
    easy.tcp_nodelay(enable).map_err(|e| format!("{}", e))
}

/// Relies on `curl::easy::Easy::follow_location`: toggles following
/// redirects.
#[verifier::external_body]
fn easy_follow_location(easy: &mut curl::easy::Easy, enable: bool) -> Result<(), String> {
    easy.follow_location(enable).map_err(|e| format!("{}", e))
}

/// Relies on `curl::easy::Easy::ssl_verify_host`: toggles TLS host
/// verification.
#[verifier::external_body]
fn easy_ssl_verify_host(easy: &mut curl::easy::Easy, verify: bool) -> Result<(), String> {
    easy.ssl_verify_host(verify).map_err(|e| format!("{}", e))
}

/// Relies on `curl::easy::Easy::ssl_verify_peer`: toggles TLS peer
/// verification.
#[verifier::external_body]
fn easy_ssl_verify_peer(easy: &mut curl::easy::Easy, verify: bool) -> Result<(), String> {
    easy.ssl_verify_peer(verify).map_err(|e| format!("{}", e))
}

/// Relies on `curl::easy::Easy::cainfo`: names the certificate bundle used
/// for TLS verification.
#[verifier::external_body]
fn easy_cainfo(easy: &mut curl::easy::Easy, path: &str) -> Result<(), String> {
    easy.cainfo(std::path::Path::new(path)).map_err(|e| format!("{}", e))
}

/// Relies on `curl::easy::Easy::url`: names the URL the transfer targets.
#[verifier::external_body]
fn easy_url(easy: &mut curl::easy::Easy, url: &str) -> Result<(), String> {
    easy.url(url).map_err(|e| format!("{}", e))
}

/// Relies on `curl::easy::Easy::perform`: runs the configured transfer;
/// what the network answers cannot be specified.
#[verifier::external_body]
fn easy_perform(easy: &curl::easy::Easy) -> Result<(), String> {
    easy.perform().map_err(|e| format!("{}", e))
}

/// With every check target unset, a passing disk report settles the
/// engine on the no-checks-configured failure: a service with no checks
/// cannot be supervised. (A failing disk report settles on that failure
/// first, as the disk check runs unconditionally.)
pub proof fn lemma_checks_no_targets(svc: Service, env: Env, space_kib: i64, inodes: Option<i64>)
    requires
        !svc.spec_has_socket_check(),
        !svc.spec_has_pid_check(),
        !svc.spec_has_url_check(),
        svc.spec_try_disk_check(env, space_kib, inodes) matches Ok(_),
    ensures
        svc.spec_checks_run(
            env,
            CheckState::NeedDisk,
            seq![CheckEvent::Disk { space_kib, inodes }],
        ) == (CheckState::Settled {
            outcome: Err(Mortal::CheckNoServiceChecks { service: svc }),
        }),
{
    let evs = seq![CheckEvent::Disk { space_kib, inodes }];
    assert(evs.drop_first() =~= Seq::<CheckEvent>::empty());
    assert(evs[0] == (CheckEvent::Disk { space_kib, inodes }));
    let s1 = svc.spec_checks_step(env, CheckState::NeedDisk, evs[0]);
    assert(s1 == svc.spec_after_disk());
    assert(s1 == svc.spec_finish());
    assert(svc.spec_checks_run(env, CheckState::NeedDisk, evs) == svc.spec_checks_run(
        env,
        s1,
        evs.drop_first(),
    ));
    assert(svc.spec_checks_run(env, s1, evs.drop_first()) == s1);
}

/// With exactly the socket check configured, a passing disk report and an
/// accepted socket probe settle on success counting the unconditional
/// disk check plus exactly one more.
pub proof fn lemma_checks_single_socket(svc: Service, env: Env, space_kib: i64, inodes: Option<i64>)
    requires
        svc.spec_has_socket_check(),
        !svc.spec_has_pid_check(),
        !svc.spec_has_url_check(),
        svc.spec_try_disk_check(env, space_kib, inodes) matches Ok(_),
    ensures
        svc.spec_checks_run(
            env,
            CheckState::NeedDisk,
            seq![
                CheckEvent::Disk { space_kib, inodes },
                CheckEvent::Socket { probe: SocketProbe::Accepted },
            ],
        ) == (CheckState::Settled {
            outcome: Ok(Mortal::OkAllChecks { service: svc, amount: 2 }),
        }),
{
    let evs = seq![
        CheckEvent::Disk { space_kib, inodes },
        CheckEvent::Socket { probe: SocketProbe::Accepted },
    ];
    assert(evs.drop_first() =~= seq![CheckEvent::Socket { probe: SocketProbe::Accepted }]);
    assert(evs.drop_first().drop_first() =~= Seq::<CheckEvent>::empty());
    assert(svc.spec_checks_amount() == 2);
    let s1 = svc.spec_checks_step(env, CheckState::NeedDisk, evs[0]);
    assert(s1 == CheckState::NeedSocket);
    let s2 = svc.spec_checks_step(env, s1, evs.drop_first()[0]);
    assert(s2 == svc.spec_finish());
    assert(svc.spec_checks_run(env, CheckState::NeedDisk, evs) == svc.spec_checks_run(
        env,
        s1,
        evs.drop_first(),
    ));
    assert(svc.spec_checks_run(env, s1, evs.drop_first()) == svc.spec_checks_run(
        env,
        s2,
        evs.drop_first().drop_first(),
    ));
}

/// With exactly the PID check configured, a passing disk report, a PID
/// file content that parses, and a process the probe finds alive settle
/// on success counting the disk check plus exactly one more.
pub proof fn lemma_checks_single_pid(
    svc: Service,
    env: Env,
    space_kib: i64,
    inodes: Option<i64>,
    content: String,
    pid: i32,
)
    requires
        !svc.spec_has_socket_check(),
        svc.spec_has_pid_check(),
        !svc.spec_has_url_check(),
        svc.spec_try_disk_check(env, space_kib, inodes) matches Ok(_),
        svc.spec_read_pid(Ok(content)) == Ok::<i32, Mortal>(pid),
    ensures
        svc.spec_checks_run(
            env,
            CheckState::NeedDisk,
            seq![
                CheckEvent::Disk { space_kib, inodes },
                CheckEvent::PidRead { content: Ok(content) },
                CheckEvent::PidAlive { alive: true },
            ],
        ) == (CheckState::Settled {
            outcome: Ok(Mortal::OkAllChecks { service: svc, amount: 2 }),
        }),
{
    let evs = seq![
        CheckEvent::Disk { space_kib, inodes },
        CheckEvent::PidRead { content: Ok(content) },
        CheckEvent::PidAlive { alive: true },
    ];
    assert(evs.drop_first() =~= seq![
        CheckEvent::PidRead { content: Ok(content) },
        CheckEvent::PidAlive { alive: true },
    ]);
    assert(evs.drop_first().drop_first() =~= seq![CheckEvent::PidAlive { alive: true }]);
    assert(evs.drop_first().drop_first().drop_first() =~= Seq::<CheckEvent>::empty());
    assert(svc.spec_checks_amount() == 2);
    let s1 = svc.spec_checks_step(env, CheckState::NeedDisk, evs[0]);
    assert(s1 == CheckState::NeedPidRead);
    let s2 = svc.spec_checks_step(env, s1, evs.drop_first()[0]);
    assert(s2 == (CheckState::NeedPidAlive { pid }));
    let s3 = svc.spec_checks_step(env, s2, evs.drop_first().drop_first()[0]);
    assert(s3 == svc.spec_finish());
    assert(svc.spec_checks_run(env, CheckState::NeedDisk, evs) == svc.spec_checks_run(
        env,
        s1,
        evs.drop_first(),
    ));
    assert(svc.spec_checks_run(env, s1, evs.drop_first()) == svc.spec_checks_run(
        env,
        s2,
        evs.drop_first().drop_first(),
    ));
    assert(svc.spec_checks_run(env, s2, evs.drop_first().drop_first()) == svc.spec_checks_run(
        env,
        s3,
        evs.drop_first().drop_first().drop_first(),
    ));
}

/// With exactly the URL check configured, a passing disk report and a
/// passing URL round settle on success counting the disk check plus
/// exactly one more.
pub proof fn lemma_checks_single_urls(
    svc: Service,
    env: Env,
    space_kib: i64,
    inodes: Option<i64>,
    passed: Mortal,
)
    requires
        !svc.spec_has_socket_check(),
        !svc.spec_has_pid_check(),
        svc.spec_has_url_check(),
        svc.spec_try_disk_check(env, space_kib, inodes) matches Ok(_),
    ensures
        svc.spec_checks_run(
            env,
            CheckState::NeedDisk,
            seq![
                CheckEvent::Disk { space_kib, inodes },
                CheckEvent::Urls { result: Ok(passed) },
            ],
        ) == (CheckState::Settled {
            outcome: Ok(Mortal::OkAllChecks { service: svc, amount: 2 }),
        }),
{
    let evs = seq![
        CheckEvent::Disk { space_kib, inodes },
        CheckEvent::Urls { result: Ok(passed) },
    ];
    assert(evs.drop_first() =~= seq![CheckEvent::Urls { result: Ok(passed) }]);
    assert(evs.drop_first().drop_first() =~= Seq::<CheckEvent>::empty());
    assert(svc.spec_checks_amount() == 2);
    let s1 = svc.spec_checks_step(env, CheckState::NeedDisk, evs[0]);
    assert(s1 == CheckState::NeedUrls);
    let s2 = svc.spec_checks_step(env, s1, evs.drop_first()[0]);
    assert(s2 == svc.spec_finish());
    assert(svc.spec_checks_run(env, CheckState::NeedDisk, evs) == svc.spec_checks_run(
        env,
        s1,
        evs.drop_first(),
    ));
    assert(svc.spec_checks_run(env, s1, evs.drop_first()) == svc.spec_checks_run(
        env,
        s2,
        evs.drop_first().drop_first(),
    ));
}

/// The reduction is a pure function of the record, the environment
/// snapshot and the probe events: re-running the checks of an unchanged
/// service over the same events yields the same outcome, variant and
/// count included.
pub proof fn lemma_checks_deterministic(
    svc: Service,
    env: Env,
    first: Seq<CheckEvent>,
    second: Seq<CheckEvent>,
)
    requires
        first == second,
    ensures
        svc.spec_checks_run(env, CheckState::NeedDisk, first) == svc.spec_checks_run(
            env,
            CheckState::NeedDisk,
            second,
        ),
{
}

/// With every target configured, a pass of all four check kinds — disk,
/// socket, PID file, URLs, in that fixed order — settles on success
/// counting all four.
pub proof fn lemma_checks_all_targets(
    svc: Service,
    env: Env,
    space_kib: i64,
    inodes: Option<i64>,
    content: String,
    pid: i32,
    passed: Mortal,
)
    requires
        svc.spec_has_socket_check(),
        svc.spec_has_pid_check(),
        svc.spec_has_url_check(),
        svc.spec_try_disk_check(env, space_kib, inodes) matches Ok(_),
        svc.spec_read_pid(Ok(content)) == Ok::<i32, Mortal>(pid),
    ensures
        svc.spec_checks_run(
            env,
            CheckState::NeedDisk,
            seq![
                CheckEvent::Disk { space_kib, inodes },
                CheckEvent::Socket { probe: SocketProbe::Accepted },
                CheckEvent::PidRead { content: Ok(content) },
                CheckEvent::PidAlive { alive: true },
                CheckEvent::Urls { result: Ok(passed) },
            ],
        ) == (CheckState::Settled {
            outcome: Ok(Mortal::OkAllChecks { service: svc, amount: 4 }),
        }),
{
    let e0 = CheckEvent::Disk { space_kib, inodes };
    let e1 = CheckEvent::Socket { probe: SocketProbe::Accepted };
    let e2 = CheckEvent::PidRead { content: Ok(content) };
    let e3 = CheckEvent::PidAlive { alive: true };
    let e4 = CheckEvent::Urls { result: Ok(passed) };
    let evs = seq![e0, e1, e2, e3, e4];
    let r1 = evs.drop_first();
    let r2 = r1.drop_first();
    let r3 = r2.drop_first();
    let r4 = r3.drop_first();
    let r5 = r4.drop_first();
    assert(r1 =~= seq![e1, e2, e3, e4]);
    assert(r2 =~= seq![e2, e3, e4]);
    assert(r3 =~= seq![e3, e4]);
    assert(r4 =~= seq![e4]);
    assert(r5 =~= Seq::<CheckEvent>::empty());
    assert(svc.spec_checks_amount() == 4);
    let s1 = svc.spec_checks_step(env, CheckState::NeedDisk, evs[0]);
    assert(s1 == CheckState::NeedSocket);
    let s2 = svc.spec_checks_step(env, s1, r1[0]);
    assert(s2 == CheckState::NeedPidRead);
    let s3 = svc.spec_checks_step(env, s2, r2[0]);
    assert(s3 == (CheckState::NeedPidAlive { pid }));
    let s4 = svc.spec_checks_step(env, s3, r3[0]);
    assert(s4 == CheckState::NeedUrls);
    let s5 = svc.spec_checks_step(env, s4, r4[0]);
    assert(s5 == svc.spec_finish());
    assert(svc.spec_checks_run(env, CheckState::NeedDisk, evs) == svc.spec_checks_run(env, s1, r1));
    assert(svc.spec_checks_run(env, s1, r1) == svc.spec_checks_run(env, s2, r2));
    assert(svc.spec_checks_run(env, s2, r2) == svc.spec_checks_run(env, s3, r3));
    assert(svc.spec_checks_run(env, s3, r3) == svc.spec_checks_run(env, s4, r4));
    assert(svc.spec_checks_run(env, s4, r4) == svc.spec_checks_run(env, s5, r5));
}

} // verus!
