//! The application behind a group, and the decisions about its native snapshots.
//!
//! Locks, permits and channels belong to the caller. The caller holds the transition lock and the
//! application lock where the comments say so; permits (`P`) and completion senders (`C`) travel with
//! the captures that they belong to.

use crate::catalog::SnapshotCatalog;
use crate::fsm::CaptureError;
use crate::fsm::CaptureRefusal;
use crate::fsm::StateMachine;
use crate::log_id::ObservedLogId;
use crate::membership::StoredMembership;
use crate::membership::StoredMembershipView;
use crate::snapshot;
use crate::snapshot::NativeSnapshot;
use crate::snapshot::SnapshotMeta;
use crate::snapshot::SnapshotMetaView;
use crate::snapshot::BYTE_LIMIT;
use crate::storage;
use crate::storage::ErrorKind;
use crate::storage::StorageError;
use crate::storage::StorageErrorView;
use crate::text;
use crate::GroupId;
use vstd::prelude::*;
use vstd::string::*;

verus! {

/// How a group keeps native snapshots.
#[derive(Debug)]
pub struct NativeSmOptions {
    pub catalog: SnapshotCatalog,
    pub max_snapshot_bytes: usize,
}

/// A captured application image on its way to the catalog.
#[derive(Debug)]
pub struct Capture<P, C> {
    pub meta: SnapshotMeta,
    pub data: Vec<u8>,
    /// What admits the build; held until it is over.
    pub permits: Option<P>,
    /// The image is the catalog's own, so there is nothing to publish.
    pub already_durable: bool,
    /// Who waits for the build.
    pub completion: Option<C>,
}

/// What a capture holds.
#[verifier::ext_equal]
pub struct CaptureView<P, C> {
    pub meta: SnapshotMetaView,
    pub data: Seq<u8>,
    pub permits: Option<P>,
    pub already_durable: bool,
    pub completion: Option<C>,
}

impl<P, C> View for Capture<P, C> {
    type V = CaptureView<P, C>;

    open spec fn view(&self) -> CaptureView<P, C> {
        CaptureView {
            meta: self.meta@,
            data: self.data@,
            permits: self.permits,
            already_durable: self.already_durable,
            completion: self.completion,
        }
    }
}

/// Native snapshot state of a group.
#[derive(Debug)]
pub struct NativeRuntime<P, C> {
    pub options: NativeSmOptions,
    /// No new snapshot work is taken in.
    pub closing: bool,
    /// Why the last capture was refused, if it was.
    pub refusal: Option<CaptureRefusal>,
    /// A reserved capture for the next builder.
    pub pending: Option<Capture<P, C>>,
}

impl<P, C> NativeRuntime<P, C> {
    /// Intake closed: a reserved capture is dropped.
    pub open spec fn closed(self) -> Self {
        NativeRuntime { closing: true, pending: None, ..self }
    }

    /// Without a reserved capture.
    pub open spec fn released(self) -> Self {
        NativeRuntime { pending: None, ..self }
    }

    /// With `capture` reserved for `completion`.
    pub open spec fn reserving(self, capture: Capture<P, C>, completion: C) -> Self {
        NativeRuntime {
            pending: Some(Capture { completion: Some(completion), ..capture }),
            ..self
        }
    }

    /// With the outcome of the last capture noted.
    pub open spec fn noting(self, refusal: Option<CaptureRefusal>) -> Self {
        NativeRuntime { refusal, ..self }
    }
}

/// Why nothing native was captured.
#[derive(Debug)]
pub enum NativeCaptureError {
    Refused(CaptureRefusal),
    Io(StorageError),
}

/// Why nothing native was captured, an application error as it came.
#[derive(Debug)]
pub enum CaptureFailure<E> {
    Native(NativeCaptureError),
    Application(E),
}

/// The application of one group with what was applied to it last.
#[derive(Debug)]
pub struct StateMachineStore<S, P, C> {
    pub group_id: GroupId,
    pub fsm: S,
    pub last_applied_log: Option<ObservedLogId>,
    pub last_membership: StoredMembership,
    /// The snapshot held in memory by groups without native snapshots.
    pub current_snapshot: Option<NativeSnapshot>,
    pub native: Option<NativeRuntime<P, C>>,
}

/// Disposable observation of one reserved native build, never persisted intent.
#[derive(Debug, Clone, Copy, PartialEq, Eq, Structural)]
pub struct NativeBuildReservation {
    pub target: Option<ObservedLogId>,
}

/// A builder of one snapshot. Without a capture it builds a snapshot in memory.
#[derive(Debug)]
pub struct SnapshotBuilder<P, C> {
    pub capture: Option<Result<Capture<P, C>, StorageError>>,
}

/// The failure of an owner that has stopped taking snapshot work.
pub open spec fn owner_closed() -> StorageErrorView {
    storage::failure(ErrorKind::BrokenPipe, "native snapshot owner closed"@)
}

fn closed_error() -> (error: StorageError)
    ensures
        error@ == owner_closed(),
{
    storage::fail(ErrorKind::BrokenPipe, "native snapshot owner closed")
}

/// The failure that stands for a refusal.
pub open spec fn refusal_failure(refusal: CaptureRefusal) -> StorageErrorView {
    storage::failure(ErrorKind::WouldBlock, "snapshot capture refused: "@ + refusal.text())
}

/// The failure that stands for a refusal.
pub fn refusal_io(refusal: CaptureRefusal) -> (error: StorageError)
    ensures
        error@ == refusal_failure(refusal),
{
    let mut message = "snapshot capture refused: ".to_owned();
    message.append(refusal.name());
    StorageError { kind: ErrorKind::WouldBlock, message }
}

/// The identity of a snapshot: its group, the last entry applied to it, and a number.
pub open spec fn snapshot_id(group: GroupId, last: Option<ObservedLogId>, number: u64) -> Seq<char> {
    match last {
        Some(last) => "native-"@ + text::decimal(group as nat) + "-T"@ + text::decimal(
            last.term as nat,
        ) + "-N"@ + text::decimal(last.node_id as nat) + "-"@ + text::decimal(last.index as nat)
            + "-"@ + text::decimal(number as nat),
        None => "native-"@ + text::decimal(group as nat) + "-empty-"@ + text::decimal(number as nat),
    }
}

fn make_snapshot_id(group: GroupId, last: Option<ObservedLogId>, number: u64) -> (id: String)
    ensures
        id@ == snapshot_id(group, last, number),
{
    let mut id = "native-".to_owned();
    text::append_u64(&mut id, group);
    match last {
        Some(last) => {
            id.append("-T");
            text::append_u64(&mut id, last.term);
            id.append("-N");
            text::append_u64(&mut id, last.node_id);
            id.append("-");
            text::append_u64(&mut id, last.index);
            id.append("-");
        },
        None => {
            id.append("-empty-");
        },
    }
    text::append_u64(&mut id, number);
    assert(id@ =~= snapshot_id(group, last, number));
    id
}

impl<S: StateMachine, P, C> StateMachineStore<S, P, C> {
    /// The byte limit for application images.
    pub open spec fn byte_limit(self) -> usize {
        match self.native {
            Some(native) => native.options.max_snapshot_bytes,
            None => BYTE_LIMIT,
        }
    }

    /// No new snapshot work is taken in.
    pub open spec fn is_closing(self) -> bool {
        self.native matches Some(native) && native.closing
    }

    /// Nothing but the native state differs from `other`.
    pub open spec fn same_application(self, other: Self) -> bool {
        &&& self.group_id == other.group_id
        &&& self.fsm == other.fsm
        &&& self.last_applied_log == other.last_applied_log
        &&& self.last_membership == other.last_membership
        &&& self.current_snapshot == other.current_snapshot
    }

    /// The metadata of a capture of the present state.
    pub open spec fn capture_meta(self, number: u64) -> SnapshotMetaView {
        SnapshotMetaView {
            last_log_id: self.last_applied_log,
            last_membership: self.last_membership@,
            snapshot_id: snapshot_id(self.group_id, self.last_applied_log, number),
        }
    }

    /// A group without native snapshots.
    pub fn new(group_id: GroupId, fsm: S) -> (store: Self)
        ensures
            store.group_id == group_id,
            store.fsm == fsm,
            store.last_applied_log is None,
            store.last_membership@ == (StoredMembershipView {
                log_id: None,
                voter_configs: Seq::empty(),
                nodes: Map::empty(),
            }),
            store.current_snapshot is None,
            store.native is None,
    {
        StateMachineStore {
            group_id,
            fsm,
            last_applied_log: None,
            last_membership: StoredMembership::empty(),
            current_snapshot: None,
            native: None,
        }
    }

    /// A group with native snapshots, whose byte limit has to be in range.
    pub fn with_native_options(group: GroupId, fsm: S, options: NativeSmOptions) -> (store: Result<
        Self,
        StorageError,
    >)
        ensures
            store is Ok <==> snapshot::is_valid_cap(options.max_snapshot_bytes as int),
            match store {
                Ok(store) => {
                    &&& store.group_id == group
                    &&& store.fsm == fsm
                    &&& store.last_applied_log is None
                    &&& store.last_membership@ == (StoredMembershipView {
                        log_id: None,
                        voter_configs: Seq::empty(),
                        nodes: Map::empty(),
                    })
                    &&& store.current_snapshot is None
                    &&& store.native == Some(
                        NativeRuntime::<P, C> {
                            options,
                            closing: false,
                            refusal: None,
                            pending: None,
                        },
                    )
                },
                Err(error) => error@ == storage::failure(
                    ErrorKind::InvalidInput,
                    "invalid snapshot byte limit"@,
                ),
            },
    {
        if options.max_snapshot_bytes == 0 || options.max_snapshot_bytes > BYTE_LIMIT {
            return Err(storage::fail(ErrorKind::InvalidInput, "invalid snapshot byte limit"));
        }
        let mut store = Self::new(group, fsm);
        store.native = Some(
            NativeRuntime { options, closing: false, refusal: None, pending: None },
        );
        Ok(store)
    }

    /// Effective application-byte bound used before native transport and install copies.
    pub fn snapshot_byte_limit(&self) -> (limit: usize)
        ensures
            limit == self.byte_limit(),
    {
        match &self.native {
            Some(native) => native.options.max_snapshot_bytes,
            None => BYTE_LIMIT,
        }
    }

    /// Whether new snapshot work is refused.
    pub fn native_is_closing(&self) -> (closing: bool)
        ensures
            closing == self.is_closing(),
    {
        match &self.native {
            Some(native) => native.closing,
            None => false,
        }
    }

    /// Why the last capture was refused, if it was.
    pub fn snapshot_capture_refusal(&self) -> (refusal: Option<CaptureRefusal>)
        ensures
            refusal == match self.native {
                Some(native) => native.refusal,
                None => None,
            },
    {
        match &self.native {
            Some(native) => native.refusal,
            None => None,
        }
    }

    /// Closes new native snapshot intake while allowing already-started transitions to finish. A
    /// reserved capture is dropped.
    pub fn close_native_intake(&mut self)
        ensures
            final(self).same_application(*old(self)),
            match old(self).native {
                Some(native) => final(self).native == Some(native.closed()),
                None => final(self).native is None,
            },
    {
        if let Some(native) = self.native.take() {
            self.native = Some(
                NativeRuntime {
                    options: native.options,
                    closing: true,
                    refusal: native.refusal,
                    pending: None,
                },
            );
        }
    }

    /// Drops a reserved capture. Used only when the native trigger failed or native execution
    /// stopped.
    pub fn release_native_reservation(&mut self)
        ensures
            final(self).same_application(*old(self)),
            match old(self).native {
                Some(native) => final(self).native == Some(native.released()),
                None => final(self).native is None,
            },
    {
        if let Some(native) = self.native.take() {
            self.native = Some(
                NativeRuntime {
                    options: native.options,
                    closing: native.closing,
                    refusal: native.refusal,
                    pending: None,
                },
            );
        }
    }

    /// What a frozen image comes to: a capture of the present state, unless the application refused,
    /// failed, or gave more bytes than it was asked for.
    pub open spec fn captures(
        self,
        frozen: Result<Vec<u8>, CaptureError<S::Error>>,
        permits: P,
        number: u64,
        captured: Result<Capture<P, C>, CaptureFailure<S::Error>>,
    ) -> bool {
        match frozen {
            Err(CaptureError::Refused(reason)) => captured == Err::<
                Capture<P, C>,
                CaptureFailure<S::Error>,
            >(CaptureFailure::Native(NativeCaptureError::Refused(reason))),
            Err(CaptureError::Application(error)) => captured == Err::<
                Capture<P, C>,
                CaptureFailure<S::Error>,
            >(CaptureFailure::Application(error)),
            Ok(data) => if data@.len() > self.byte_limit() {
                captured == Err::<Capture<P, C>, CaptureFailure<S::Error>>(
                    CaptureFailure::Native(NativeCaptureError::Refused(CaptureRefusal::SizeLimit)),
                )
            } else {
                captured matches Ok(capture) && capture@ == (CaptureView::<P, C> {
                    meta: self.capture_meta(number),
                    data: data@,
                    permits: Some(permits),
                    already_durable: false,
                    completion: None,
                })
            },
        }
    }

    /// Turns a frozen image into a capture.
    pub fn captured(
        &self,
        frozen: Result<Vec<u8>, CaptureError<S::Error>>,
        permits: P,
        number: u64,
    ) -> (captured: Result<Capture<P, C>, CaptureFailure<S::Error>>)
        ensures
            self.captures(frozen, permits, number, captured),
    {
        let data = match frozen {
            Ok(data) => data,
            Err(CaptureError::Refused(reason)) => {
                return Err(CaptureFailure::Native(NativeCaptureError::Refused(reason)));
            },
            Err(CaptureError::Application(error)) => {
                return Err(CaptureFailure::Application(error));
            },
        };
        if data.len() > self.snapshot_byte_limit() {
            return Err(
                CaptureFailure::Native(NativeCaptureError::Refused(CaptureRefusal::SizeLimit)),
            );
        }
        let meta = SnapshotMeta {
            last_log_id: self.last_applied_log,
            last_membership: self.last_membership.clone(),
            snapshot_id: make_snapshot_id(self.group_id, self.last_applied_log, number),
        };
        Ok(
            Capture {
                meta,
                data,
                permits: Some(permits),
                already_durable: false,
                completion: None,
            },
        )
    }

    /// Captures the application within the byte limit, at the present cut. It takes the permits of
    /// the node and of the group, and is busy where one of them is not to be had; the transition lock
    /// and the application lock are held.
    pub fn capture_native(&self, permits: Option<P>, number: u64) -> (captured: Result<
        Capture<P, C>,
        CaptureFailure<S::Error>,
    >)
        ensures
            match permits {
                None => captured == Err::<Capture<P, C>, CaptureFailure<S::Error>>(
                    CaptureFailure::Native(NativeCaptureError::Refused(CaptureRefusal::Busy)),
                ),
                Some(permits) => if self.is_closing() {
                    captured matches Err(CaptureFailure::Native(NativeCaptureError::Io(error)))
                        && error@ == owner_closed()
                } else {
                    exists|frozen: Result<Vec<u8>, CaptureError<S::Error>>|
                        {
                            &&& #[trigger] call_ensures(
                                S::freeze_bounded,
                                (&self.fsm, self.group_id, self.byte_limit()),
                                frozen,
                            )
                            &&& self.captures(frozen, permits, number, captured)
                        }
                },
            },
    {
        let permits = match permits {
            Some(permits) => permits,
            None => {
                return Err(
                    CaptureFailure::Native(NativeCaptureError::Refused(CaptureRefusal::Busy)),
                );
            },
        };
        if self.native_is_closing() {
            return Err(CaptureFailure::Native(NativeCaptureError::Io(closed_error())));
        }
        let frozen = self.fsm.freeze_bounded(self.group_id, self.snapshot_byte_limit());
        self.captured(frozen, permits, number)
    }
}

/// A capture is of the state that the store is in: it has the cut and the membership of what was
/// applied last, and the whole image that the application gave. An image is captured exactly where
/// the application gave one within the byte limit, which is 64 MiB without native snapshots.
pub proof fn law_captures_hold_the_applied_state<S: StateMachine, P, C>(
    store: StateMachineStore<S, P, C>,
    frozen: Result<Vec<u8>, CaptureError<S::Error>>,
    permits: P,
    number: u64,
    captured: Result<Capture<P, C>, CaptureFailure<S::Error>>,
)
    requires
        call_ensures(
            StateMachineStore::<S, P, C>::captured,
            (&store, frozen, permits, number),
            captured,
        ),
    ensures
        ({
            let limit: int = match store.native {
                Some(native) => native.options.max_snapshot_bytes as int,
                None => 67_108_864int,
            };
            &&& captured is Ok <==> frozen is Ok && frozen->Ok_0@.len() <= limit
            &&& frozen is Ok && frozen->Ok_0@.len() > limit ==> captured->Err_0
                == CaptureFailure::<S::Error>::Native(
                NativeCaptureError::Refused(CaptureRefusal::SizeLimit),
            )
        }),
        captured is Ok ==> {
            &&& captured->Ok_0.meta.last_log_id == store.last_applied_log
            &&& captured->Ok_0.meta.last_membership.log_id == store.last_membership.log_id
            &&& captured->Ok_0.meta.last_membership@ == store.last_membership@
            &&& captured->Ok_0.data@ == frozen->Ok_0@
            &&& captured->Ok_0.permits == Some(permits)
            &&& captured->Ok_0.completion is None
            &&& !captured->Ok_0.already_durable
        },
        frozen matches Err(CaptureError::Refused(reason)) ==> captured->Err_0
            == CaptureFailure::<S::Error>::Native(NativeCaptureError::Refused(reason)),
        frozen matches Err(CaptureError::Application(error)) ==> captured->Err_0
            == CaptureFailure::<S::Error>::Application(error),
{
}

/// Nothing is captured without permits or once intake is closed; and what is captured has the cut
/// and the membership of what was applied last, and an image that the application gave within the
/// byte limit.
pub proof fn law_native_captures_hold_the_applied_state<S: StateMachine, P, C>(
    store: StateMachineStore<S, P, C>,
    permits: Option<P>,
    number: u64,
    captured: Result<Capture<P, C>, CaptureFailure<S::Error>>,
)
    requires
        call_ensures(
            StateMachineStore::<S, P, C>::capture_native,
            (&store, permits, number),
            captured,
        ),
    ensures
        permits is None ==> captured->Err_0 == CaptureFailure::<S::Error>::Native(
            NativeCaptureError::Refused(CaptureRefusal::Busy),
        ),
        permits is Some && store.native is Some && store.native->0.closing
            ==> (captured matches Err(CaptureFailure::Native(NativeCaptureError::Io(error)))
            && error.kind is BrokenPipe),
        captured is Ok ==> {
            &&& permits is Some && captured->Ok_0.permits == permits
            &&& store.native is Some ==> !store.native->0.closing
            &&& captured->Ok_0.meta.last_log_id == store.last_applied_log
            &&& captured->Ok_0.meta.last_membership@ == store.last_membership@
            &&& store.native is Some ==> captured->Ok_0.data@.len()
                <= store.native->0.options.max_snapshot_bytes
            &&& store.native is None ==> captured->Ok_0.data@.len() <= 64 * 1024 * 1024
            &&& exists|image: Vec<u8>| #[trigger]
                call_ensures(
                    S::freeze_bounded,
                    (&store.fsm, store.group_id, store.byte_limit()),
                    Ok::<Vec<u8>, CaptureError<S::Error>>(image),
                ) && image@ == captured->Ok_0.data@
        },
{
    if captured is Ok {
        let frozen = choose|frozen: Result<Vec<u8>, CaptureError<S::Error>>|
            {
                &&& #[trigger] call_ensures(
                    S::freeze_bounded,
                    (&store.fsm, store.group_id, store.byte_limit()),
                    frozen,
                )
                &&& store.captures(frozen, permits->0, number, captured)
            };
        assert(frozen is Ok);
        assert(frozen == Ok::<Vec<u8>, CaptureError<S::Error>>(frozen->Ok_0));
    }
}

/// What follows the leader in an identity.
spec fn index_tail(index: u64, number: u64) -> Seq<char> {
    "-"@ + (text::decimal(index as nat) + ("-"@ + (text::decimal(number as nat) + Seq::empty())))
}

/// What follows the group in the identity of a snapshot of an entry.
spec fn entry_tail(last: ObservedLogId, number: u64) -> Seq<char> {
    "-T"@ + (text::decimal(last.term as nat) + ("-N"@ + (text::decimal(last.node_id as nat)
        + index_tail(last.index, number))))
}

/// What follows the group in an identity.
spec fn id_tail(last: Option<ObservedLogId>, number: u64) -> Seq<char> {
    match last {
        Some(last) => entry_tail(last, number),
        None => "-empty-"@ + (text::decimal(number as nat) + Seq::empty()),
    }
}

proof fn lemma_id_tail(group: GroupId, last: Option<ObservedLogId>, number: u64)
    ensures
        snapshot_id(group, last, number) == "native-"@ + (text::decimal(group as nat) + id_tail(
            last,
            number,
        )),
{
    match last {
        None => {
            assert(snapshot_id(group, last, number) =~= "native-"@ + (text::decimal(group as nat)
                + id_tail(last, number)));
        },
        Some(l) => {
            let head = "native-"@ + text::decimal(group as nat) + "-T"@ + text::decimal(
                l.term as nat,
            ) + "-N"@ + text::decimal(l.node_id as nat);
            assert(snapshot_id(group, last, number) =~= head + index_tail(l.index, number));
            assert(head + index_tail(l.index, number) =~= "native-"@ + (text::decimal(group as nat)
                + entry_tail(l, number)));
        },
    }
}

proof fn lemma_entry_tail_is_unique(a: ObservedLogId, m: u64, b: ObservedLogId, n: u64)
    requires
        entry_tail(a, m) == entry_tail(b, n),
    ensures
        a == b,
        m == n,
{
    reveal_strlit("-N");
    reveal_strlit("-");
    let r = index_tail(a.index, m);
    let s = index_tail(b.index, n);
    text::lemma_number_follows(
        "-T"@,
        a.term as nat,
        "-N"@ + (text::decimal(a.node_id as nat) + r),
        b.term as nat,
        "-N"@ + (text::decimal(b.node_id as nat) + s),
    );
    text::lemma_number_follows("-N"@, a.node_id as nat, r, b.node_id as nat, s);
    let x = "-"@ + (text::decimal(m as nat) + Seq::empty());
    let y = "-"@ + (text::decimal(n as nat) + Seq::empty());
    text::lemma_number_follows("-"@, a.index as nat, x, b.index as nat, y);
    text::lemma_number_follows("-"@, m as nat, Seq::empty(), n as nat, Seq::empty());
}

/// The identity of a snapshot says which group, which entry and which number it is of: no two
/// captures that differ in one of them share it.
pub proof fn law_snapshot_identities_are_unique(
    group: GroupId,
    last: Option<ObservedLogId>,
    number: u64,
    other_group: GroupId,
    other_last: Option<ObservedLogId>,
    other_number: u64,
)
    requires
        snapshot_id(group, last, number) == snapshot_id(other_group, other_last, other_number),
    ensures
        group == other_group,
        last == other_last,
        number == other_number,
{
    reveal_strlit("-T");
    reveal_strlit("-empty-");
    let a = id_tail(last, number);
    let b = id_tail(other_last, other_number);
    lemma_id_tail(group, last, number);
    lemma_id_tail(other_group, other_last, other_number);
    assert(a[0] == '-' && b[0] == '-');
    text::lemma_number_follows("native-"@, group as nat, a, other_group as nat, b);
    assert(a[1] == (if last is Some {
        'T'
    } else {
        'e'
    }));
    assert(b[1] == (if other_last is Some {
        'T'
    } else {
        'e'
    }));
    if last is Some {
        lemma_entry_tail_is_unique(last->0, number, other_last->0, other_number);
    } else {
        text::lemma_number_follows(
            "-empty-"@,
            number as nat,
            Seq::empty(),
            other_number as nat,
            Seq::empty(),
        );
    }
}

/// Two captures with different numbers have different identities, whatever was applied between
/// them.
pub proof fn law_captures_are_told_apart<S: StateMachine, P, C>(
    store: StateMachineStore<S, P, C>,
    frozen: Result<Vec<u8>, CaptureError<S::Error>>,
    permits: P,
    number: u64,
    captured: Result<Capture<P, C>, CaptureFailure<S::Error>>,
    later: StateMachineStore<S, P, C>,
    other_frozen: Result<Vec<u8>, CaptureError<S::Error>>,
    other_permits: P,
    other_number: u64,
    other: Result<Capture<P, C>, CaptureFailure<S::Error>>,
)
    requires
        call_ensures(
            StateMachineStore::<S, P, C>::captured,
            (&store, frozen, permits, number),
            captured,
        ),
        call_ensures(
            StateMachineStore::<S, P, C>::captured,
            (&later, other_frozen, other_permits, other_number),
            other,
        ),
        captured is Ok && other is Ok,
        number != other_number || store.group_id != later.group_id || store.last_applied_log
            != later.last_applied_log,
    ensures
        captured->Ok_0.meta.snapshot_id@ != other->Ok_0.meta.snapshot_id@,
{
    if captured->Ok_0.meta.snapshot_id@ == other->Ok_0.meta.snapshot_id@ {
        assert(captured->Ok_0@.meta == store.capture_meta(number));
        assert(other->Ok_0@.meta == later.capture_meta(other_number));
        law_snapshot_identities_are_unique(
            store.group_id,
            store.last_applied_log,
            number,
            later.group_id,
            later.last_applied_log,
            other_number,
        );
    }
}

/// Closing the intake refuses new work and drops a reserved capture; releasing drops the capture
/// and lets the intake as it is. Neither touches anything else.
pub proof fn law_closing_and_releasing_touch_nothing_else<S: StateMachine, P, C>(
    closed: &mut StateMachineStore<S, P, C>,
    released: &mut StateMachineStore<S, P, C>,
    closing: bool,
    limit: usize,
    refusal: Option<CaptureRefusal>,
)
    requires
        call_ensures(StateMachineStore::<S, P, C>::close_native_intake, (closed,), ()),
        call_ensures(StateMachineStore::<S, P, C>::release_native_reservation, (released,), ()),
        call_ensures(
            StateMachineStore::<S, P, C>::native_is_closing,
            (&*final(closed),),
            closing,
        ),
        call_ensures(StateMachineStore::<S, P, C>::snapshot_byte_limit, (&*final(closed),), limit),
        call_ensures(
            StateMachineStore::<S, P, C>::snapshot_capture_refusal,
            (&*final(closed),),
            refusal,
        ),
    ensures
        closing <==> old(closed).native is Some,
        final(closed).native is Some <==> old(closed).native is Some,
        old(closed).native matches Some(native) ==> {
            &&& final(closed).native->0.closing
            &&& final(closed).native->0.pending is None
            &&& final(closed).native->0.options == native.options
            &&& final(closed).native->0.refusal == native.refusal
            &&& limit == native.options.max_snapshot_bytes
            &&& refusal == native.refusal
        },
        old(closed).native is None ==> limit == 64 * 1024 * 1024 && refusal is None,
        final(closed).fsm == old(closed).fsm,
        final(closed).group_id == old(closed).group_id,
        final(closed).last_applied_log == old(closed).last_applied_log,
        final(closed).last_membership == old(closed).last_membership,
        final(closed).current_snapshot == old(closed).current_snapshot,
        final(released).native is Some <==> old(released).native is Some,
        old(released).native matches Some(native) ==> {
            &&& final(released).native->0.closing == native.closing
            &&& final(released).native->0.pending is None
            &&& final(released).native->0.options == native.options
            &&& final(released).native->0.refusal == native.refusal
        },
        final(released).fsm == old(released).fsm,
        final(released).group_id == old(released).group_id,
        final(released).last_applied_log == old(released).last_applied_log,
        final(released).last_membership == old(released).last_membership,
        final(released).current_snapshot == old(released).current_snapshot,
{
}

/// A refusal is reported under its own name.
pub proof fn law_refusals_are_told_apart(
    refusal: CaptureRefusal,
    other: CaptureRefusal,
    first: StorageError,
    second: StorageError,
)
    requires
        call_ensures(refusal_io, (refusal,), first),
        call_ensures(refusal_io, (other,), second),
    ensures
        first.kind is WouldBlock,
        first.message@ == second.message@ ==> refusal == other,
{
    reveal_strlit("Unsupported");
    reveal_strlit("SizeLimit");
    reveal_strlit("Busy");
    if first.message@ == second.message@ {
        assert(first@.message.len() == "snapshot capture refused: "@.len() + refusal.text().len());
        assert(second@.message.len() == "snapshot capture refused: "@.len() + other.text().len());
    }
}

/// A store with native snapshots is to be had exactly where its byte limit goes from one byte to
/// 64 MiB; it starts with nothing applied, open and without a reservation.
pub proof fn law_native_stores_start_empty<S: StateMachine, P, C>(
    group: GroupId,
    fsm: S,
    options: NativeSmOptions,
    store: Result<StateMachineStore<S, P, C>, StorageError>,
)
    requires
        call_ensures(
            StateMachineStore::<S, P, C>::with_native_options,
            (group, fsm, options),
            store,
        ),
    ensures
        store is Ok <==> 1 <= options.max_snapshot_bytes <= 64 * 1024 * 1024,
        store is Err ==> store->Err_0.kind is InvalidInput,
        store is Ok ==> {
            &&& store->Ok_0.group_id == group && store->Ok_0.fsm == fsm
            &&& store->Ok_0.last_applied_log is None
            &&& store->Ok_0.last_membership.log_id is None
            &&& store->Ok_0.last_membership@.voter_configs.len() == 0
            &&& store->Ok_0.native is Some
            &&& store->Ok_0.native->0.options == options
            &&& !store->Ok_0.native->0.closing
            &&& store->Ok_0.native->0.pending is None
            &&& store->Ok_0.native->0.refusal is None
        },
{
}

/// A store without native snapshots starts with nothing applied, and builds in memory.
pub proof fn law_stores_start_empty<S: StateMachine, P, C>(
    group: GroupId,
    fsm: S,
    store: StateMachineStore<S, P, C>,
)
    requires
        call_ensures(StateMachineStore::<S, P, C>::new, (group, fsm), store),
    ensures
        store.group_id == group,
        store.fsm == fsm,
        store.last_applied_log is None,
        store.last_membership.log_id is None,
        store.last_membership@.voter_configs.len() == 0,
        store.last_membership@.nodes.dom().is_empty(),
        store.current_snapshot is None,
        store.native is None,
{
}

} // verus!
