//! Layered configuration resolution: every Service Record field falls back
//! from its explicit value to an environment override to a compiled-in
//! default, with numeric overrides floored to a sane minimum. The process
//! environment and the host facts are injected as an [`Env`] snapshot, so
//! each accessor is a pure function of the record and the snapshot.

use vstd::prelude::*;
use vstd::string::*;

use crate::common::CHECKS_INTERVAL;
use crate::common::CHECKS_INTERVAL_FLOOR;
use crate::common::CHECKS_URL_TIMEOUT;
use crate::common::CHECKS_URL_TIMEOUT_FLOOR;
use crate::common::DEATHWATCHES_INTERVAL;
use crate::common::DEATHWATCHES_INTERVAL_FLOOR;
use crate::common::DISK_MINIMUM_INODES;
use crate::common::DISK_MINIMUM_SPACE;
use crate::common::SLACK_ALERT_CHANNEL;
use crate::parse::spec_parse_i64;
use crate::parse::spec_parse_u64;
use crate::parse::parse_i64;
use crate::parse::parse_u64;
use crate::parse::str_eq;
use crate::service::Service;

verus! {

/// Snapshot of the environment variables and host facts the fallback chains
/// consult. The embedding program rebuilds it each cycle, so environment
/// changes are observed on the next read.
#[derive(Debug, Default)]
pub struct Env {
    /// Override of the minimum free disk space, `DISK_MINIMUM_SPACE`.
    pub disk_minimum_space: Option<String>,
    /// Override of the minimum free inodes, `DISK_MINIMUM_INODES`.
    pub disk_minimum_inodes: Option<String>,
    /// Fallback webhook, `SLACK_WEBHOOK_URL`.
    pub slack_webhook_url: Option<String>,
    /// Fallback alert channel, `SLACK_ALERT_CHANNEL`.
    pub slack_alert_channel: Option<String>,
    /// Override of the check pacing interval, `CHECKS_INTERVAL`.
    pub checks_interval: Option<String>,
    /// Override of the URL check timeout, `CHECKS_URL_TIMEOUT`.
    pub checks_url_timeout: Option<String>,
    /// Override of the death watch pause, `DEATHWATCHES_INTERVAL`.
    pub deathwatches_interval: Option<String>,
    /// The invoking user's name, `USER`.
    pub user: Option<String>,
    /// The host's kernel name, as the system reports it.
    pub sysname: String,
}

/// An environment override parsed as `i64`, else the default.
pub open spec fn spec_env_i64(v: Option<String>, default: i64) -> i64 {
    match v {
        Some(s) => match spec_parse_i64(s@) {
            Some(n) => n,
            None => default,
        },
        None => default,
    }
}

/// An environment override parsed as `u64` and floored, else the default.
pub open spec fn spec_env_u64_floored(v: Option<String>, default: u64, floor: u64) -> u64 {
    match v {
        Some(s) => {
            let n = match spec_parse_u64(s@) {
                Some(n) => n,
                None => default,
            };
            if n < floor {
                floor
            } else {
                n
            }
        },
        None => default,
    }
}

/// Resolve an optional `i64` environment override.
fn env_i64(v: &Option<String>, default: i64) -> (r: i64)
    ensures
        r == spec_env_i64(*v, default),
{
    match v {
        Some(s) => match parse_i64(s.as_str()) {
            Some(n) => n,
            None => default,
        },
        None => default,
    }
}

/// Resolve an optional `u64` environment override with a floor.
fn env_u64_floored(v: &Option<String>, default: u64, floor: u64) -> (r: u64)
    ensures
        r == spec_env_u64_floored(*v, default, floor),
{
    match v {
        Some(s) => {
            let n = match parse_u64(s.as_str()) {
                Some(n) => n,
                None => default,
            };
            if n < floor {
                floor
            } else {
                n
            }
        },
        None => default,
    }
}

impl Service {
    /// The resolved minimum free disk space, in MiB.
    pub open spec fn spec_disk_minimum_space(self, env: Env) -> i64 {
        match self.disk_minimum_space {
            Some(v) => v,
            None => spec_env_i64(env.disk_minimum_space, DISK_MINIMUM_SPACE),
        }
    }

    /// The resolved minimum count of free inodes.
    pub open spec fn spec_disk_minimum_inodes(self, env: Env) -> i64 {
        match self.disk_minimum_inodes {
            Some(v) => v,
            None => spec_env_i64(env.disk_minimum_inodes, DISK_MINIMUM_INODES),
        }
    }

    /// The resolved webhook; empty means notifications are off.
    pub open spec fn spec_slack_webhook_url(self, env: Env) -> Seq<char> {
        match self.slack_webhook_url {
            Some(s) => s@,
            None => match env.slack_webhook_url {
                Some(s) => s@,
                None => Seq::empty(),
            },
        }
    }

    /// The resolved alert channel.
    pub open spec fn spec_slack_alert_channel(self, env: Env) -> Seq<char> {
        match self.slack_alert_channel {
            Some(s) => s@,
            None => match env.slack_alert_channel {
                Some(s) => s@,
                None => SLACK_ALERT_CHANNEL@,
            },
        }
    }

    /// The resolved pause before checking, in milliseconds.
    pub open spec fn spec_checks_interval(self, env: Env) -> u64 {
        match self.checks_interval {
            Some(v) => v,
            None => spec_env_u64_floored(env.checks_interval, CHECKS_INTERVAL, CHECKS_INTERVAL_FLOOR),
        }
    }

    /// The resolved URL check timeout, in milliseconds.
    pub open spec fn spec_checks_url_timeout(self, env: Env) -> u64 {
        match self.checks_url_timeout {
            Some(v) => v,
            None => spec_env_u64_floored(
                env.checks_url_timeout,
                CHECKS_URL_TIMEOUT,
                CHECKS_URL_TIMEOUT_FLOOR,
            ),
        }
    }

    /// The resolved pause between death watch signals, in milliseconds.
    pub open spec fn spec_deathwatches_interval(self, env: Env) -> u64 {
        match self.deathwatches_interval {
            Some(v) => v,
            None => spec_env_u64_floored(
                env.deathwatches_interval,
                DEATHWATCHES_INTERVAL,
                DEATHWATCHES_INTERVAL_FLOOR,
            ),
        }
    }

    /// The resolved user name to launch the service as.
    pub open spec fn spec_user(self, env: Env) -> Seq<char> {
        match self.user {
            Some(s) => s@,
            None => match env.user {
                Some(s) => s@,
                None => "nobody"@,
            },
        }
    }

    /// The resolved group name: on a Darwin-class host the invoking user is
    /// assumed to sit in `staff`, elsewhere in `nobody`.
    pub open spec fn spec_group(self, env: Env) -> Seq<char> {
        match self.group {
            Some(s) => s@,
            None => if env.sysname@ == "Darwin"@ {
                "staff"@
            } else {
                "nobody"@
            },
        }
    }

    /// The resolved working directory.
    pub open spec fn spec_work_dir(self) -> Seq<char> {
        match self.work_dir {
            Some(s) => s@,
            None => "/tmp"@,
        }
    }

    /// The PID file to monitor; empty means the check is off.
    pub open spec fn spec_pid_file(self) -> Seq<char> {
        match self.pid_file {
            Some(s) => s@,
            None => Seq::empty(),
        }
    }

    /// The UNIX socket to monitor; empty means the check is off.
    pub open spec fn spec_unix_socket(self) -> Seq<char> {
        match self.unix_socket {
            Some(s) => s@,
            None => Seq::empty(),
        }
    }

    /// The URLs to check; empty means the check is off.
    pub open spec fn spec_urls(self) -> Seq<String> {
        match self.urls {
            Some(v) => v@,
            None => Seq::empty(),
        }
    }
}

/// Standard fields of a service definition, each resolved through its
/// fallback chain against an [`Env`] snapshot.
pub trait InitFields {
    fn disk_minimum_space(&self, env: &Env) -> i64;

    fn disk_minimum_inodes(&self, env: &Env) -> i64;

    fn slack_webhook_url(&self, env: &Env) -> String;

    fn slack_alert_channel(&self, env: &Env) -> String;

    fn checks_interval(&self, env: &Env) -> u64;

    fn checks_url_timeout(&self, env: &Env) -> u64;

    fn deathwatches_interval(&self, env: &Env) -> u64;

    fn user(&self, env: &Env) -> String;

    fn group(&self, env: &Env) -> String;

    fn work_dir(&self) -> String;

    fn pid_file(&self) -> String;

    fn unix_socket(&self) -> String;

    fn urls(&self) -> Vec<String>;
}

impl InitFields for Service {
    /// Explicit value, else the `DISK_MINIMUM_SPACE` override, else the
    /// compiled-in minimum.
    fn disk_minimum_space(&self, env: &Env) -> (r: i64)
        ensures
            r == self.spec_disk_minimum_space(*env),
    {
        match self.disk_minimum_space {
            Some(v) => v,
            None => env_i64(&env.disk_minimum_space, DISK_MINIMUM_SPACE),
        }
    }

    /// Explicit value, else the `DISK_MINIMUM_INODES` override, else the
    /// compiled-in minimum.
    fn disk_minimum_inodes(&self, env: &Env) -> (r: i64)
        ensures
            r == self.spec_disk_minimum_inodes(*env),
    {
        match self.disk_minimum_inodes {
            Some(v) => v,
            None => env_i64(&env.disk_minimum_inodes, DISK_MINIMUM_INODES),
        }
    }

    /// Explicit value, else the `SLACK_WEBHOOK_URL` override, else empty.
    fn slack_webhook_url(&self, env: &Env) -> (r: String)
        ensures
            r@ == self.spec_slack_webhook_url(*env),
    {
        match &self.slack_webhook_url {
            Some(s) => s.clone(),
            None => match &env.slack_webhook_url {
                Some(s) => s.clone(),
                None => String::new(),
            },
        }
    }

    /// Explicit value, else the `SLACK_ALERT_CHANNEL` override, else the
    /// compiled-in channel.
    fn slack_alert_channel(&self, env: &Env) -> (r: String)
        ensures
            r@ == self.spec_slack_alert_channel(*env),
    {
        match &self.slack_alert_channel {
            Some(s) => s.clone(),
            None => match &env.slack_alert_channel {
                Some(s) => s.clone(),
                None => String::from_str(SLACK_ALERT_CHANNEL),
            },
        }
    }

    /// Explicit value, else the `CHECKS_INTERVAL` override floored to
    /// `CHECKS_INTERVAL_FLOOR`, else the compiled-in interval.
    fn checks_interval(&self, env: &Env) -> (r: u64)
        ensures
            r == self.spec_checks_interval(*env),
    {
        match self.checks_interval {
            Some(v) => v,
            None => env_u64_floored(&env.checks_interval, CHECKS_INTERVAL, CHECKS_INTERVAL_FLOOR),
        }
    }

    /// Explicit value, else the `CHECKS_URL_TIMEOUT` override floored to
    /// `CHECKS_URL_TIMEOUT_FLOOR`, else the compiled-in timeout.
    fn checks_url_timeout(&self, env: &Env) -> (r: u64)
        ensures
            r == self.spec_checks_url_timeout(*env),
    {
        match self.checks_url_timeout {
            Some(v) => v,
            None => env_u64_floored(
                &env.checks_url_timeout,
                CHECKS_URL_TIMEOUT,
                CHECKS_URL_TIMEOUT_FLOOR,
            ),
        }
    }

    /// Explicit value, else the `DEATHWATCHES_INTERVAL` override floored to
    /// `DEATHWATCHES_INTERVAL_FLOOR`, else the compiled-in pause.
    fn deathwatches_interval(&self, env: &Env) -> (r: u64)
        ensures
            r == self.spec_deathwatches_interval(*env),
    {
        match self.deathwatches_interval {
            Some(v) => v,
            None => env_u64_floored(
                &env.deathwatches_interval,
                DEATHWATCHES_INTERVAL,
                DEATHWATCHES_INTERVAL_FLOOR,
            ),
        }
    }

    /// Explicit value, else the `USER` variable, else `nobody`.
    fn user(&self, env: &Env) -> (r: String)
        ensures
            r@ == self.spec_user(*env),
    {
        match &self.user {
            Some(s) => s.clone(),
            None => match &env.user {
                Some(s) => s.clone(),
                None => String::from_str("nobody"),
            },
        }
    }

    /// Explicit value, else `staff` on a Darwin-class host, else `nobody`.
    fn group(&self, env: &Env) -> (r: String)
        ensures
            r@ == self.spec_group(*env),
    {
        match &self.group {
            Some(s) => s.clone(),
            None => {
                if str_eq(env.sysname.as_str(), "Darwin") {
                    String::from_str("staff")
                } else {
                    String::from_str("nobody")
                }
            },
        }
    }

    /// Explicit value, else `/tmp`.
    fn work_dir(&self) -> (r: String)
        ensures
            r@ == self.spec_work_dir(),
    {
        match &self.work_dir {
            Some(s) => s.clone(),
            None => String::from_str("/tmp"),
        }
    }

    /// Explicit value, else empty.
    fn pid_file(&self) -> (r: String)
        ensures
            r@ == self.spec_pid_file(),
    {
        match &self.pid_file {
            Some(s) => s.clone(),
            None => String::new(),
        }
    }

    /// Explicit value, else empty.
    fn unix_socket(&self) -> (r: String)
        ensures
            r@ == self.spec_unix_socket(),
    {
        match &self.unix_socket {
            Some(s) => s.clone(),
            None => String::new(),
        }
    }

    /// Explicit list, else empty.
    fn urls(&self) -> (r: Vec<String>)
        ensures
            r@ == self.spec_urls(),
    {
        match &self.urls {
            Some(v) => crate::service::clone_string_vec(v),
            None => Vec::new(),
        }
    }
}

} // verus!
