//! Mortal: the closed outcome taxonomy every check and lifecycle operation
//! reduces to. Successes carry the detail a log line needs; failures carry
//! the Service Record (when service-scoped) and the cause.

use vstd::prelude::*;

use crate::service::Service;

verus! {

/// Outcome of a check or lifecycle operation.
#[derive(Debug)]
pub enum Mortal {
    /// Every eligible check of the service passed; `amount` counts them.
    OkAllChecks { service: Service, amount: i32 },
    /// Every URL of the service answered its GET request.
    OkUrlsChecks { service: Service },
    /// The service's UNIX socket accepted the probe message.
    OkUnixSockCheck { service: Service },
    /// The PID from the service's PID file exists.
    OkPidAlive { service: Service, pid: i32 },
    /// The death watch ended the process.
    OkPidInterrupted { service: Service, pid: i32 },
    /// The process was already gone when the death watch first probed it.
    OkPidAlreadyInterrupted { service: Service, pid: i32 },
    /// Free disk space and inodes are above the configured minimums.
    OkDiskCheck { service: Service },
    /// No check target is configured: the service cannot be supervised.
    CheckNoServiceChecks { service: Service },
    /// The PID from the service's PID file no longer exists.
    CheckPidDead { service: Service, pid: i32 },
    /// A raw file read failed after the file was opened.
    RawLoadFailure { file_name: String, cause: String },
    /// A raw file could not be opened.
    RawAccessFailure { file_name: String, cause: String },
    /// A definition file's content could not be decoded.
    DefinitionDecodeFailure { ini_name: String, cause: String },
    /// A definition file could not be loaded.
    DefinitionLoadFailure { ini_name: String, cause: String },
    /// A URL check's request was built but failed.
    CheckURL { service: Service, url: String, cause: String },
    /// A URL check's request could not even be constructed.
    CheckURLFail { service: Service, cause: String },
    /// The PID file's content is not a PID.
    CheckPidfileMalformed { service: Service },
    /// The PID file could not be read.
    CheckPidfileUnaccessible { service: Service, cause: String },
    /// The UNIX socket connected but refused the probe message.
    CheckUnixSocket { service: Service, cause: String },
    /// The UNIX socket did not accept a connection.
    CheckUnixSocketMissing { service: Service, cause: String },
    /// Free disk space is below the configured minimum.
    CheckDiskSpace { service: Service },
    /// Free disk inodes are below the configured minimum.
    CheckDiskInodes { service: Service },
    /// The service defines no `start` command, so it cannot be restarted.
    ServiceNoStartDefined { service: Service },
    /// Spawning the service's start command failed.
    ServiceStartFailure { service: Service, cause: String },
    /// Posting a notification to the webhook failed.
    NotificationFailure { cause: String },
    /// An internal invariant was violated, e.g. by the death watch guard.
    SanityCheckFailure { message: String },
}

/// The variant of a [`Mortal`], without its payload; lets callers compare
/// outcomes without comparing whole Service Records.
#[derive(Debug, Clone, Copy, PartialEq, Eq, Structural)]
pub enum MortalKind {
    OkAllChecks,
    OkUrlsChecks,
    OkUnixSockCheck,
    OkPidAlive,
    OkPidInterrupted,
    OkPidAlreadyInterrupted,
    OkDiskCheck,
    CheckNoServiceChecks,
    CheckPidDead,
    RawLoadFailure,
    RawAccessFailure,
    DefinitionDecodeFailure,
    DefinitionLoadFailure,
    CheckURL,
    CheckURLFail,
    CheckPidfileMalformed,
    CheckPidfileUnaccessible,
    CheckUnixSocket,
    CheckUnixSocketMissing,
    CheckDiskSpace,
    CheckDiskInodes,
    ServiceNoStartDefined,
    ServiceStartFailure,
    NotificationFailure,
    SanityCheckFailure,
}

impl Mortal {
    /// The variant of this outcome.
    pub open spec fn spec_kind(self) -> MortalKind {
        match self {
            Mortal::OkAllChecks { .. } => MortalKind::OkAllChecks,
            Mortal::OkUrlsChecks { .. } => MortalKind::OkUrlsChecks,
            Mortal::OkUnixSockCheck { .. } => MortalKind::OkUnixSockCheck,
            Mortal::OkPidAlive { .. } => MortalKind::OkPidAlive,
            Mortal::OkPidInterrupted { .. } => MortalKind::OkPidInterrupted,
            Mortal::OkPidAlreadyInterrupted { .. } => MortalKind::OkPidAlreadyInterrupted,
            Mortal::OkDiskCheck { .. } => MortalKind::OkDiskCheck,
            Mortal::CheckNoServiceChecks { .. } => MortalKind::CheckNoServiceChecks,
            Mortal::CheckPidDead { .. } => MortalKind::CheckPidDead,
            Mortal::RawLoadFailure { .. } => MortalKind::RawLoadFailure,
            Mortal::RawAccessFailure { .. } => MortalKind::RawAccessFailure,
            Mortal::DefinitionDecodeFailure { .. } => MortalKind::DefinitionDecodeFailure,
            Mortal::DefinitionLoadFailure { .. } => MortalKind::DefinitionLoadFailure,
            Mortal::CheckURL { .. } => MortalKind::CheckURL,
            Mortal::CheckURLFail { .. } => MortalKind::CheckURLFail,
            Mortal::CheckPidfileMalformed { .. } => MortalKind::CheckPidfileMalformed,
            Mortal::CheckPidfileUnaccessible { .. } => MortalKind::CheckPidfileUnaccessible,
            Mortal::CheckUnixSocket { .. } => MortalKind::CheckUnixSocket,
            Mortal::CheckUnixSocketMissing { .. } => MortalKind::CheckUnixSocketMissing,
            Mortal::CheckDiskSpace { .. } => MortalKind::CheckDiskSpace,
            Mortal::CheckDiskInodes { .. } => MortalKind::CheckDiskInodes,
            Mortal::ServiceNoStartDefined { .. } => MortalKind::ServiceNoStartDefined,
            Mortal::ServiceStartFailure { .. } => MortalKind::ServiceStartFailure,
            Mortal::NotificationFailure { .. } => MortalKind::NotificationFailure,
            Mortal::SanityCheckFailure { .. } => MortalKind::SanityCheckFailure,
        }
    }

    /// Returns the variant of this outcome.
    pub fn kind(&self) -> (r: MortalKind)
        ensures
            r == self.spec_kind(),
    {
        match self {
            Mortal::OkAllChecks { .. } => MortalKind::OkAllChecks,
            Mortal::OkUrlsChecks { .. } => MortalKind::OkUrlsChecks,
            Mortal::OkUnixSockCheck { .. } => MortalKind::OkUnixSockCheck,
            Mortal::OkPidAlive { .. } => MortalKind::OkPidAlive,
            Mortal::OkPidInterrupted { .. } => MortalKind::OkPidInterrupted,
            Mortal::OkPidAlreadyInterrupted { .. } => MortalKind::OkPidAlreadyInterrupted,
            Mortal::OkDiskCheck { .. } => MortalKind::OkDiskCheck,
            Mortal::CheckNoServiceChecks { .. } => MortalKind::CheckNoServiceChecks,
            Mortal::CheckPidDead { .. } => MortalKind::CheckPidDead,
            Mortal::RawLoadFailure { .. } => MortalKind::RawLoadFailure,
            Mortal::RawAccessFailure { .. } => MortalKind::RawAccessFailure,
            Mortal::DefinitionDecodeFailure { .. } => MortalKind::DefinitionDecodeFailure,
            Mortal::DefinitionLoadFailure { .. } => MortalKind::DefinitionLoadFailure,
            Mortal::CheckURL { .. } => MortalKind::CheckURL,
            Mortal::CheckURLFail { .. } => MortalKind::CheckURLFail,
            Mortal::CheckPidfileMalformed { .. } => MortalKind::CheckPidfileMalformed,
            Mortal::CheckPidfileUnaccessible { .. } => MortalKind::CheckPidfileUnaccessible,
            Mortal::CheckUnixSocket { .. } => MortalKind::CheckUnixSocket,
            Mortal::CheckUnixSocketMissing { .. } => MortalKind::CheckUnixSocketMissing,
            Mortal::CheckDiskSpace { .. } => MortalKind::CheckDiskSpace,
            Mortal::CheckDiskInodes { .. } => MortalKind::CheckDiskInodes,
            Mortal::ServiceNoStartDefined { .. } => MortalKind::ServiceNoStartDefined,
            Mortal::ServiceStartFailure { .. } => MortalKind::ServiceStartFailure,
            Mortal::NotificationFailure { .. } => MortalKind::NotificationFailure,
            Mortal::SanityCheckFailure { .. } => MortalKind::SanityCheckFailure,
        }
    }

    /// A success variant: the operation found nothing wrong.
    pub open spec fn spec_is_success(self) -> bool {
        match self {
            Mortal::OkAllChecks { .. } => true,
            Mortal::OkUrlsChecks { .. } => true,
            Mortal::OkUnixSockCheck { .. } => true,
            Mortal::OkPidAlive { .. } => true,
            Mortal::OkPidInterrupted { .. } => true,
            Mortal::OkPidAlreadyInterrupted { .. } => true,
            Mortal::OkDiskCheck { .. } => true,
            _ => false,
        }
    }

    /// Returns whether this outcome is a success variant.
    pub fn is_success(&self) -> (r: bool)
        ensures
            r == self.spec_is_success(),
    {
        match self {
            Mortal::OkAllChecks { .. } => true,
            Mortal::OkUrlsChecks { .. } => true,
            Mortal::OkUnixSockCheck { .. } => true,
            Mortal::OkPidAlive { .. } => true,
            Mortal::OkPidInterrupted { .. } => true,
            Mortal::OkPidAlreadyInterrupted { .. } => true,
            Mortal::OkDiskCheck { .. } => true,
            _ => false,
        }
    }
}

} // verus!
