//! Pluggable state machine.

use crate::GroupId;
use vstd::prelude::*;

verus! {

/// What applying an entry gives back.
#[derive(Debug, Clone, Default)]
pub struct ApplyOut {
    pub effects: Vec<u8>,
}

/// Known refusal before snapshot work is admitted; never an input/output or corruption error.
#[derive(Debug, Clone, Copy, PartialEq, Eq, Structural)]
pub enum CaptureRefusal {
    Unsupported,
    SizeLimit,
    Busy,
}

impl CaptureRefusal {
    /// The name of the refusal.
    pub open spec fn text(self) -> Seq<char> {
        match self {
            CaptureRefusal::Unsupported => "Unsupported"@,
            CaptureRefusal::SizeLimit => "SizeLimit"@,
            CaptureRefusal::Busy => "Busy"@,
        }
    }

    /// The name of the refusal.
    pub fn name(&self) -> (name: &'static str)
        ensures
            name@ == self.text(),
    {
        match self {
            CaptureRefusal::Unsupported => "Unsupported",
            CaptureRefusal::SizeLimit => "SizeLimit",
            CaptureRefusal::Busy => "Busy",
        }
    }
}

/// Why nothing was captured.
#[derive(Debug)]
pub enum CaptureError<E> {
    Refused(CaptureRefusal),
    Application(E),
}

/// The application behind a group: entries are applied to it, and it is captured and restored.
pub trait StateMachine: Send + 'static {
    type Error: Send + Sync + 'static;

    /// The entries that the machine can take; it need not take one that makes it overflow.
    /// Default: every entry.
    open spec fn accepts(&self, group: GroupId, data: Seq<u8>) -> bool {
        true
    }

    /// What a restore may come to: the machine before and after it, and its result.
    /// Default: anything.
    open spec fn restores(
        before: &Self,
        after: &Self,
        group: GroupId,
        snapshot: Seq<u8>,
        restored: Result<(), Self::Error>,
    ) -> bool {
        true
    }

    /// Applies the entry `data` at `index`.
    fn apply(&mut self, group: GroupId, index: u64, data: &[u8]) -> (out: Result<
        ApplyOut,
        Self::Error,
    >)
        requires
            old(self).accepts(group, data@),
    ;

    /// Serializes the state of a group.
    fn snapshot(&self, group: GroupId) -> (bytes: Result<Vec<u8>, Self::Error>);

    /// Replaces the state of a group by a serialized one.
    fn restore(&mut self, group: GroupId, snapshot: &[u8]) -> (restored: Result<(), Self::Error>)
        ensures
            Self::restores(old(self), final(self), group, snapshot@, restored),
    ;

    /// Capture within the supplied byte bound, checking while constructing bytes.
    /// The default refuses without calling the unbounded serializer.
    /// Durable-native users implement this hook.
    fn freeze_bounded(&self, group: GroupId, max_bytes: usize) -> (bytes: Result<
        Vec<u8>,
        CaptureError<Self::Error>,
    >)
        default_ensures
            bytes == Err::<Vec<u8>, CaptureError<Self::Error>>(
                CaptureError::Refused(CaptureRefusal::Unsupported),
            ),
    {
        Err(CaptureError::Refused(CaptureRefusal::Unsupported))
    }

    /// Consistent freeze for an asynchronous snapshot. Default: [`Self::snapshot`].
    ///
    /// A standby holds the application lock only for this call, then serializes off the lock.
    fn freeze_for_snapshot(&self, group: GroupId) -> (bytes: Result<Vec<u8>, Self::Error>)
        default_ensures
            call_ensures(Self::snapshot, (self, group), bytes),
    {
        self.snapshot(group)
    }
}

} // verus!
