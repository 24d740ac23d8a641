//! Compiled-in defaults shared by the whole supervisor.

use vstd::prelude::*;

verus! {

/// Project name, used in notification payloads and log lines.
pub const NAME: &'static str = "Deities";

/// Project version reported in notification payloads.
pub const VERSION: &'static str = "0.1.0";

/// Default directory containing service definition files.
pub const SERVICES_DIR: &'static str = "/Services";

/// Default glob pattern selecting definition files.
pub const SERVICES_GLOB: &'static str = "*.ini";

/// Probe message written to a service's UNIX socket after connecting.
pub const UNIX_SOCKET_MSG: &'static str = "version";

/// Environment variable selecting the log level.
pub const LOG_ENV: &'static str = "LOG";

/// Certificate bundle handed to the URL checker for TLS verification.
pub const CACERT_PEM: &'static str = "/etc/ssl/cert.pem";

/// Host name reported when the system refuses to tell its own.
pub const DEFAULT_HOSTNAME: &'static str = "localhost";

/// Name of the notifying bot in alert payloads.
pub const DEFAULT_NOTIFICATION_NAME: &'static str = "Failure Reporter";

/// Shell used to run a service's start wrapper.
pub const DEFAULT_SHELL: &'static str = "/bin/sh";

/// PATH exported inside a generated start wrapper.
pub const DEFAULT_PATH: &'static str = "/bin:/usr/bin:/sbin:/usr/sbin:/usr/local/bin:/usr/local/sbin";

/// Lock file name guaranteeing a single supervisor instance.
pub const DEFAULT_LOCK: &'static str = "/.deities.lock";

/// Default pause between check cycles, in milliseconds.
pub const CHECKS_INTERVAL: u64 = 3000;

/// Smallest accepted override of the check interval, in milliseconds.
pub const CHECKS_INTERVAL_FLOOR: u64 = 100;

/// Default timeout for connection, transfer and DNS cache of a URL check,
/// in milliseconds.
pub const CHECKS_URL_TIMEOUT: u64 = 10000;

/// Smallest accepted override of the URL check timeout, in milliseconds.
pub const CHECKS_URL_TIMEOUT_FLOOR: u64 = 1000;

/// Default pause between signals of the death watch, in milliseconds.
pub const DEATHWATCHES_INTERVAL: u64 = 2000;

/// Smallest accepted override of the death watch pause, in milliseconds.
pub const DEATHWATCHES_INTERVAL_FLOOR: u64 = 2000;

/// Default minimum free disk space, in MiB.
pub const DISK_MINIMUM_SPACE: i64 = 3000;

/// Default minimum count of free inodes.
pub const DISK_MINIMUM_INODES: i64 = 4096;

/// Default channel receiving alert notifications.
pub const SLACK_ALERT_CHANNEL: &'static str = "#ops-status";

} // verus!
