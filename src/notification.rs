//! The progress payloads that a transfer backend reports, and how each one
//! maps onto a [`RemoteProgress`].
use vstd::prelude::*;

use crate::progress::{RemoteProgress, RemoteProgressState};

verus! {

/// The phase of pack building that a packing report refers to.
#[derive(Clone, Copy, Debug, PartialEq, Eq, Structural)]
pub enum PackStage {
    /// Objects are being added to the pack.
    AddingObjects,
    /// Objects are being delta-compressed.
    Deltafication,
}

/// One progress report from a running fetch or push.
#[derive(Clone, Debug)]
pub enum ProgressNotification {
    /// A remote reference moved from object `a` to object `b`.
    UpdateTips {
        /// The reference's name.
        name: String,
        /// The raw id of the object it pointed at before.
        a: Vec<u8>,
        /// The raw id of the object it points at now.
        b: Vec<u8>,
    },
    /// Objects received so far during a fetch.
    Transfer {
        /// Objects received.
        objects: usize,
        /// Objects expected.
        total_objects: usize,
    },
    /// Objects sent so far during a push.
    PushTransfer {
        /// Objects sent.
        current: usize,
        /// Objects to send.
        total: usize,
        /// Bytes sent.
        bytes: usize,
    },
    /// Pack building progress.
    Packing {
        /// The pack building phase.
        stage: PackStage,
        /// Objects to process in this phase.
        total: usize,
        /// Objects processed in this phase.
        current: usize,
    },
    /// The transfer is over.
    Done,
}

impl ProgressNotification {
    /// Whether this report ends the transfer.
    pub open spec fn spec_is_terminal(&self) -> bool {
        self is Done
    }

    /// Whether this report ends the transfer.
    pub fn is_terminal(&self) -> (r: bool)
        ensures
            r == self.spec_is_terminal(),
    {
        match self {
            ProgressNotification::Done => true,
            _ => false,
        }
    }
}

/// The progress value that a report stands for. Packing, push and fetch
/// counters become a percentage of their stage; every other report (an
/// explicit end included) collapses to a finished transfer at 100 percent.
pub open spec fn progress_of(n: ProgressNotification) -> RemoteProgress {
    match n {
        ProgressNotification::Packing { stage: PackStage::AddingObjects, current, total } =>
            RemoteProgress::spec_new(RemoteProgressState::PackingAddingObject, current as nat, total as nat),
        ProgressNotification::Packing { stage: PackStage::Deltafication, current, total } =>
            RemoteProgress::spec_new(RemoteProgressState::PackingDeltafiction, current as nat, total as nat),
        ProgressNotification::PushTransfer { current, total, .. } =>
            RemoteProgress::spec_new(RemoteProgressState::Pushing, current as nat, total as nat),
        ProgressNotification::Transfer { objects, total_objects } =>
            RemoteProgress::spec_new(RemoteProgressState::Transfer, objects as nat, total_objects as nat),
        _ => RemoteProgress::spec_new(RemoteProgressState::Done, 1, 1),
    }
}

impl From<ProgressNotification> for RemoteProgress {
    fn from(progress: ProgressNotification) -> (r: Self)
        ensures
            r == progress_of(progress),
            r.progress <= 100,
    {
        match progress {
            ProgressNotification::Packing { stage, current, total } => match stage {
                PackStage::AddingObjects => RemoteProgress::new(
                    RemoteProgressState::PackingAddingObject,
                    current,
                    total,
                ),
                PackStage::Deltafication => RemoteProgress::new(
                    RemoteProgressState::PackingDeltafiction,
                    current,
                    total,
                ),
            },
            ProgressNotification::PushTransfer { current, total, .. } => RemoteProgress::new(
                RemoteProgressState::Pushing,
                current,
                total,
            ),
            ProgressNotification::Transfer { objects, total_objects } => RemoteProgress::new(
                RemoteProgressState::Transfer,
                objects,
                total_objects,
            ),
            _ => RemoteProgress::new(RemoteProgressState::Done, 1, 1),
        }
    }
}

impl vstd::std_specs::convert::FromSpecImpl<ProgressNotification> for RemoteProgress {
    open spec fn obeys_from_spec() -> bool {
        true
    }

    open spec fn from_spec(v: ProgressNotification) -> Self {
        progress_of(v)
    }
}

} // verus!
