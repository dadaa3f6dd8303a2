//! Provisioning and decommissioning of disks as Ceph OSDs: the decisions,
//! names and command lines, kept apart from the host and cluster calls that
//! carry them out.
//!
//! An operation is a sequence of steps. The library says which step comes
//! next and what it works with; the caller carries the step out against the
//! host, the volume manager, the partition tables and the cluster, and
//! reports what came of it.

pub mod backend;
pub mod error;
pub mod ident;
pub mod journal;
pub mod osd_dir;
pub mod provision;
pub mod removal;
pub mod service;
pub mod tags;
pub mod text;
pub mod volume;
pub mod work;
