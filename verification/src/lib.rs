//! A host-local service supervisor core.
//!
//! The crate models one supervised service as a [`service::Service`] record,
//! reduces its health probes to a single [`mortal::Mortal`] outcome through
//! the check engine in [`perun`], owns the signal-escalation death watch and
//! the notification decision in [`svarog`], plans service restarts in
//! [`veles`], and fixes the per-cycle remediation policy in [`supervisor`].
//! Probes that need the operating system (file reads, signals, sockets,
//! disk statistics) are delivered to the engines as events by the embedding
//! program; everything the engines decide from those events is verified.

pub mod common;
pub mod init_fields;
pub mod mortal;
pub mod parse;
pub mod perun;
pub mod service;
pub mod supervisor;
pub mod svarog;
pub mod veles;
