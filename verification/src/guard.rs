//! The attach/update state machine around one stored record handle.
//!
//! A [`MumbleGuard`] holds at most one live record image. `init` stores the
//! outcome of one attach attempt made by the caller; `update` requires a
//! stored handle and forwards one bundle to the update protocol. The caller
//! serializes access (one guard behind one lock) and publishes the bytes
//! after each accepted update.

use crate::record::{update_rel, validate_bundle, LinkRecord, PoseBundle, UpdateError};
use crate::RECORD_SIZE;
use vstd::prelude::*;

verus! {

/// The errno value for a named object that does not exist (ENOENT).
pub const ERRNO_NOT_FOUND: i32 = 2;

/// What one attach attempt against the named shared segment came to, as
/// reported by the caller that performed the OS calls.
pub enum AttachOutcome {
    /// The segment was opened, sized and mapped; these are its current
    /// bytes.
    Attached(Vec<u8>),
    /// An OS call failed with this errno value.
    Failed(i32),
}

/// What `init` reports to the adapter layer.
#[derive(Clone, Copy, PartialEq, Eq, Structural, Debug)]
pub enum InitStatus {
    /// The segment is attached and updates may flow.
    Ready,
    /// The segment does not exist: the consumer application is not
    /// running. Expected and quiet; not an error.
    NotAvailable,
    /// Any other OS failure, with its errno value.
    Error(i32),
}

impl InitStatus {
    /// Whether this status is an OS failure worth logging at error
    /// severity. An absent segment is routine and stays quiet.
    pub fn should_log(&self) -> (b: bool)
        ensures
            b <==> (*self matches InitStatus::Error(_)),
    {
        matches!(self, InitStatus::Error(_))
    }
}

/// A process-wide slot holding at most one live record handle.
pub struct MumbleGuard {
    record: Option<LinkRecord>,
}

impl MumbleGuard {
    /// Whether a successful attach has stored a handle.
    pub closed spec fn is_attached(&self) -> bool {
        self.record is Some
    }

    /// The byte image of the stored record.
    pub closed spec fn record_view(&self) -> Seq<u8>
        recommends
            self.is_attached(),
    {
        self.record->Some_0@
    }

    /// A stored record, if any, has the record's exact size.
    pub closed spec fn wf(&self) -> bool {
        self.record matches Some(r) ==> r.wf()
    }

    /// A fresh guard with no stored handle.
    pub fn new() -> (g: MumbleGuard)
        ensures
            !g.is_attached(),
            g.wf(),
    {
        MumbleGuard { record: None }
    }

    /// Record the outcome of one attach attempt.
    ///
    /// A successful attach stores the handle, replacing any prior one. A
    /// failed attach leaves the guard as it was and reports
    /// `NotAvailable` for an absent segment (quietly — see
    /// [`InitStatus::should_log`]) and `Error` with the errno value for
    /// anything else. Safe to call repeatedly.
    pub fn init(&mut self, outcome: AttachOutcome) -> (s: InitStatus)
        requires
            old(self).wf(),
            outcome matches AttachOutcome::Attached(b) ==> b@.len() == RECORD_SIZE,
        ensures
            final(self).wf(),
            match outcome {
                AttachOutcome::Attached(b) => {
                    &&& final(self).is_attached()
                    &&& final(self).record_view() == b@
                    &&& s == InitStatus::Ready
                },
                AttachOutcome::Failed(e) => {
                    &&& *final(self) == *old(self)
                    &&& s == (if e == ERRNO_NOT_FOUND {
                        InitStatus::NotAvailable
                    } else {
                        InitStatus::Error(e)
                    })
                },
            },
    {
        match outcome {
            AttachOutcome::Attached(bytes) => {
                self.record = Some(LinkRecord::from_bytes(bytes));
                InitStatus::Ready
            },
            AttachOutcome::Failed(e) => {
                if e == ERRNO_NOT_FOUND {
                    InitStatus::NotAvailable
                } else {
                    InitStatus::Error(e)
                }
            },
        }
    }

    /// Carry one bundle into the stored record.
    ///
    /// Calling this with no stored handle is a caller-contract violation:
    /// it is reported as `NotInitialized` and the caller treats it as
    /// fatal. With a handle, an accepted bundle relates the record before
    /// and after by [`update_rel`]; a rejected one returns the error
    /// [`validate_bundle`] gives and changes nothing.
    pub fn update(&mut self, bundle: &PoseBundle) -> (r: Result<(), UpdateError>)
        requires
            old(self).wf(),
        ensures
            final(self).wf(),
            !old(self).is_attached() ==> r == Err::<(), UpdateError>(UpdateError::NotInitialized)
                && *final(self) == *old(self),
            old(self).is_attached() ==> {
                &&& final(self).is_attached()
                &&& (validate_bundle(*bundle) is Ok ==> r is Ok && update_rel(
                    old(self).record_view(),
                    *bundle,
                    final(self).record_view(),
                ))
                &&& (validate_bundle(*bundle) is Err ==> r == validate_bundle(*bundle)
                    && final(self).record_view() == old(self).record_view())
            },
    {
        match &mut self.record {
            Some(record) => record.apply_update(bundle),
            None => Err(UpdateError::NotInitialized),
        }
    }

    /// The stored record's bytes, for the caller to publish into the
    /// mapped segment; `None` while no handle is stored.
    pub fn record_bytes(&self) -> (r: Option<&Vec<u8>>)
        ensures
            match r {
                Some(v) => self.is_attached() && v@ == self.record_view(),
                None => !self.is_attached(),
            },
    {
        match &self.record {
            Some(record) => Some(record.bytes()),
            None => None,
        }
    }
}

} // verus!
