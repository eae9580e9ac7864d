//! Transfer registry and runtime lifecycle.
//!
//! The registry tracks every in-flight transfer handle, delivers
//! cancellation through a per-handle one-shot broadcast, and implements
//! graceful shutdown: once the stopping flag is set it stays set, new
//! registrations are rejected, every active handle is cancelled, and a
//! one-shot shutdown signal reaches all subscribers.

use vstd::prelude::*;

verus! {

/// Unique identifier for a transfer operation.
pub type TransferId = String;

#[verifier::external_type_specification]
#[verifier::external_body]
#[verifier::reject_recursive_types(T)]
pub struct ExSender<T>(tokio::sync::broadcast::Sender<T>);

#[verifier::external_type_specification]
#[verifier::external_body]
#[verifier::reject_recursive_types(T)]
pub struct ExReceiver<T>(tokio::sync::broadcast::Receiver<T>);

#[verifier::external_type_specification]
#[verifier::external_body]
#[verifier::reject_recursive_types(T)]
pub struct ExSendError<T>(tokio::sync::broadcast::error::SendError<T>);

/// Relies on `tokio::sync::broadcast::channel`: creates a broadcast channel.
/// It panics when the capacity is 0 or above `usize::MAX / 2`, so those
/// capacities are excluded here; nothing is assumed of the returned halves.
pub assume_specification<T: Clone>[ tokio::sync::broadcast::channel::<T> ](
    capacity: usize,
) -> (r: (tokio::sync::broadcast::Sender<T>, tokio::sync::broadcast::Receiver<T>))
    requires
        1 <= capacity <= usize::MAX / 2,
;

/// Relies on `tokio::sync::broadcast::Sender::send`: queues the value for
/// the subscribed receivers, or returns it when there are none. Nothing is
/// assumed of the outcome.
pub assume_specification<T>[ tokio::sync::broadcast::Sender::<T>::send ](
    sender: &tokio::sync::broadcast::Sender<T>,
    value: T,
) -> Result<usize, tokio::sync::broadcast::error::SendError<T>>
;

/// Relies on `tokio::sync::broadcast::Sender::subscribe`: creates a receiver
/// seeing values sent after this call. Nothing is assumed of it.
pub assume_specification<T>[ tokio::sync::broadcast::Sender::<T>::subscribe ](
    sender: &tokio::sync::broadcast::Sender<T>,
) -> tokio::sync::broadcast::Receiver<T>
;

/// Commands that can be sent to the runtime.
#[derive(Debug, Clone)]
pub enum RuntimeCommand {
    /// Initiate graceful shutdown.
    Shutdown,
    /// Cancel a specific transfer.
    CancelTransfer(TransferId),
    /// Cancel all transfers.
    CancelAllTransfers,
}

/// Status of a transfer operation: a simplified projection of the transfer
/// state machine's richer state.
#[derive(Debug, Clone, Copy, PartialEq, Eq, Structural)]
pub enum TransferStatus {
    Pending,
    InProgress,
    Paused,
    Completed,
    Failed,
    Cancelled,
}

/// Runtime lifecycle state.
#[derive(Debug, Clone, Copy, PartialEq, Eq, Structural)]
pub enum RuntimeState {
    Running,
    Stopping,
    Stopped,
}

/// Transfer handle: progress bookkeeping plus the broadcaster that delivers
/// this transfer's cancellation signal.
#[derive(Debug)]
pub struct TransferHandle {
    pub id: TransferId,
    pub status: TransferStatus,
    pub bytes_transferred: u64,
    pub total_bytes: Option<u64>,
    pub cancel_signal: tokio::sync::broadcast::Sender<()>,
}

/// A status that still counts as in flight.
pub open spec fn is_active(st: TransferStatus) -> bool {
    st == TransferStatus::Pending || st == TransferStatus::InProgress || st
        == TransferStatus::Paused
}

/// Some handle is still in flight.
pub open spec fn has_active(s: Seq<TransferHandle>) -> bool {
    exists|i: int| 0 <= i < s.len() && is_active((#[trigger] s[i]).status)
}

/// Some handle carries the given id.
pub open spec fn has_id(s: Seq<TransferHandle>, id: Seq<char>) -> bool {
    exists|i: int| 0 <= i < s.len() && (#[trigger] s[i]).id@ == id
}

/// No two handles share an id.
pub open spec fn ids_unique(s: Seq<TransferHandle>) -> bool {
    forall|i: int, j: int|
        0 <= i < j < s.len() ==> (#[trigger] s[i]).id@ != (#[trigger] s[j]).id@
}

/// A freshly registered handle: pending, no progress yet.
pub open spec fn handle_fresh(h: TransferHandle, id: String, total: Option<u64>) -> bool {
    h.id == id && h.status == TransferStatus::Pending && h.bytes_transferred == 0
        && h.total_bytes == total
}

/// `post` and `pre` agree on everything but the status at index `i`, which
/// becomes `st`.
pub open spec fn status_set_at(
    pre: Seq<TransferHandle>,
    post: Seq<TransferHandle>,
    i: int,
    st: TransferStatus,
) -> bool {
    &&& post.len() == pre.len()
    &&& post[i].id == pre[i].id
    &&& post[i].status == st
    &&& post[i].bytes_transferred == pre[i].bytes_transferred
    &&& post[i].total_bytes == pre[i].total_bytes
    &&& post[i].cancel_signal == pre[i].cancel_signal
    &&& forall|j: int| 0 <= j < pre.len() && j != i ==> post[j] == pre[j]
}

/// Registration either replaces the handle that already carried the id or
/// appends a fresh one; every other handle is untouched.
pub open spec fn registered(
    pre: Seq<TransferHandle>,
    post: Seq<TransferHandle>,
    id: String,
    total: Option<u64>,
) -> bool {
    if has_id(pre, id@) {
        exists|i: int|
            {
                &&& 0 <= i < pre.len()
                &&& (#[trigger] pre[i]).id@ == id@
                &&& post.len() == pre.len()
                &&& handle_fresh(post[i], id, total)
                &&& forall|j: int| 0 <= j < pre.len() && j != i ==> post[j] == pre[j]
            }
    } else {
        &&& post.len() == pre.len() + 1
        &&& handle_fresh(post[pre.len() as int], id, total)
        &&& forall|j: int| 0 <= j < pre.len() ==> post[j] == pre[j]
    }
}

/// Every active handle became `Cancelled`; terminal handles and all other
/// fields are untouched.
pub open spec fn all_cancelled(pre: Seq<TransferHandle>, post: Seq<TransferHandle>) -> bool {
    &&& post.len() == pre.len()
    &&& forall|i: int|
        0 <= i < pre.len() ==> {
            &&& (#[trigger] post[i]).id == pre[i].id
            &&& post[i].bytes_transferred == pre[i].bytes_transferred
            &&& post[i].total_bytes == pre[i].total_bytes
            &&& post[i].cancel_signal == pre[i].cancel_signal
            &&& post[i].status == if is_active(pre[i].status) {
                TransferStatus::Cancelled
            } else {
                pre[i].status
            }
        }
}

/// The in-flight view of a handle sequence: id, status and progress of the
/// active handles, in order.
pub open spec fn actives_of(s: Seq<TransferHandle>) -> Seq<
    (String, TransferStatus, u64, Option<u64>),
>
    decreases s.len(),
{
    if s.len() == 0 {
        Seq::empty()
    } else {
        let rest = actives_of(s.drop_last());
        if is_active(s.last().status) {
            rest.push((s.last().id, s.last().status, s.last().bytes_transferred, s.last().total_bytes))
        } else {
            rest
        }
    }
}

/// The handles that survive a cleanup sweep: exactly the active ones, in
/// order.
pub open spec fn retained_of(s: Seq<TransferHandle>) -> Seq<TransferHandle>
    decreases s.len(),
{
    if s.len() == 0 {
        Seq::empty()
    } else {
        let rest = retained_of(s.drop_last());
        if is_active(s.last().status) {
            rest.push(s.last())
        } else {
            rest
        }
    }
}

/// Every id in the retained sequence was present before.
proof fn lemma_retained_ids(s: Seq<TransferHandle>)
    ensures
        retained_of(s).len() <= s.len(),
        forall|k: int|
            0 <= k < retained_of(s).len() ==> exists|i: int|
                0 <= i < s.len() && (#[trigger] retained_of(s)[k]) == s[i],
    decreases s.len(),
{
    if s.len() > 0 {
        lemma_retained_ids(s.drop_last());
        assert forall|k: int| 0 <= k < retained_of(s).len() implies exists|i: int|
            0 <= i < s.len() && (#[trigger] retained_of(s)[k]) == s[i] by {
            let rest = retained_of(s.drop_last());
            if k < rest.len() {
                let i = choose|i: int|
                    0 <= i < s.drop_last().len() && (#[trigger] rest[k]) == s.drop_last()[i];
                assert(retained_of(s)[k] == s[i]);
            } else {
                assert(retained_of(s)[k] == s[s.len() - 1]);
            }
        }
    }
}

/// A cleanup sweep keeps ids unique.
proof fn lemma_retained_unique(s: Seq<TransferHandle>)
    requires
        ids_unique(s),
    ensures
        ids_unique(retained_of(s)),
    decreases s.len(),
{
    if s.len() > 0 {
        lemma_retained_unique(s.drop_last());
        lemma_retained_ids(s.drop_last());
        let rest = retained_of(s.drop_last());
        if is_active(s.last().status) {
            assert forall|i: int, j: int|
                0 <= i < j < retained_of(s).len() implies (#[trigger] retained_of(s)[i]).id@ != (
            #[trigger] retained_of(s)[j]).id@ by {
                if j < rest.len() {
                } else {
                    let oi = choose|oi: int|
                        0 <= oi < s.drop_last().len() && rest[i] == s.drop_last()[oi];
                    assert(retained_of(s)[i].id@ == s[oi].id@);
                    assert(retained_of(s)[j].id@ == s[s.len() - 1].id@);
                }
            }
        }
    }
}

/// Backend runtime: the central control structure tracking in-flight
/// transfers and driving graceful shutdown.
#[derive(Debug)]
pub struct BackendRuntime {
    stopping: bool,
    active_transfers: Vec<TransferHandle>,
    shutdown_signal: tokio::sync::broadcast::Sender<()>,
    command_tx: tokio::sync::broadcast::Sender<RuntimeCommand>,
}

/// The lifecycle state derived from the stopping flag and the handles:
/// `Stopped` only once stopping is set and nothing is in flight.
pub open spec fn spec_state_of(stopping: bool, s: Seq<TransferHandle>) -> RuntimeState {
    if !stopping {
        RuntimeState::Running
    } else if has_active(s) {
        RuntimeState::Stopping
    } else {
        RuntimeState::Stopped
    }
}

impl BackendRuntime {
    /// Whether shutdown has begun; once true it stays true.
    pub closed spec fn spec_stopping(&self) -> bool {
        self.stopping
    }

    /// The registered handles, in registration order.
    pub closed spec fn handles(&self) -> Seq<TransferHandle> {
        self.active_transfers@
    }

    /// No two handles share an id.
    pub open spec fn wf(&self) -> bool {
        ids_unique(self.handles())
    }

    pub fn new() -> (rt: Self)
        ensures
            rt.wf(),
            !rt.spec_stopping(),
            rt.handles().len() == 0,
    {
        let (shutdown_tx, shutdown_rx) = tokio::sync::broadcast::channel::<()>(1);
        let (command_tx, command_rx) = tokio::sync::broadcast::channel::<RuntimeCommand>(16);
        BackendRuntime {
            stopping: false,
            active_transfers: Vec::new(),
            shutdown_signal: shutdown_tx,
            command_tx,
        }
    }

    /// Whether the runtime is stopping or stopped.
    pub fn is_stopping(&self) -> (r: bool)
        ensures
            r == self.spec_stopping(),
    {
        self.stopping
    }

    /// The current lifecycle state.
    pub fn state(&self) -> (r: RuntimeState)
        ensures
            r == spec_state_of(self.spec_stopping(), self.handles()),
    {
        if self.stopping {
            let mut i: usize = 0;
            let n = self.active_transfers.len();
            let mut active = false;
            while i < n
                invariant
                    i <= n,
                    n == self.handles().len(),
                    active == exists|k: int|
                        0 <= k < i && is_active((#[trigger] self.handles()[k]).status),
                decreases n - i,
            {
                let st = self.active_transfers[i].status;
                if st == TransferStatus::Pending || st == TransferStatus::InProgress || st
                    == TransferStatus::Paused {
                    active = true;
                }
                i = i + 1;
            }
            if active {
                RuntimeState::Stopping
            } else {
                RuntimeState::Stopped
            }
        } else {
            RuntimeState::Running
        }
    }

    /// Subscribe to runtime commands.
    pub fn subscribe_commands(&self) -> tokio::sync::broadcast::Receiver<RuntimeCommand> {
        self.command_tx.subscribe()
    }

    /// Index of the handle carrying `id`, if any.
    fn find_handle(&self, id: &TransferId) -> (res: Option<usize>)
        ensures
            match res {
                Some(i) => i < self.handles().len() && self.handles()[i as int].id@ == id@,
                None => !has_id(self.handles(), id@),
            },
    {
        let mut i: usize = 0;
        let n = self.active_transfers.len();
        while i < n
            invariant
                i <= n,
                n == self.handles().len(),
                forall|k: int| 0 <= k < i ==> (#[trigger] self.handles()[k]).id@ != id@,
            decreases n - i,
        {
            if self.active_transfers[i].id == *id {
                return Some(i);
            }
            i = i + 1;
        }
        None
    }

    /// Register a new transfer and hand back a receiver for its cancellation
    /// signal — `None` exactly when the runtime is stopping, which rejects
    /// new transfers outright. Registering an id again replaces its handle.
    pub fn register_transfer(&mut self, id: TransferId, total_bytes: Option<u64>) -> (res: Option<
        tokio::sync::broadcast::Receiver<()>,
    >)
        requires
            old(self).wf(),
        ensures
            final(self).wf(),
            res is Some <==> !old(self).spec_stopping(),
            final(self).spec_stopping() == old(self).spec_stopping(),
            old(self).spec_stopping() ==> final(self).handles() == old(self).handles(),
            !old(self).spec_stopping() ==> registered(
                old(self).handles(),
                final(self).handles(),
                id,
                total_bytes,
            ),
    {
        if self.stopping {
            return None;
        }
        let (cancel_tx, cancel_rx) = tokio::sync::broadcast::channel::<()>(1);
        let handle = TransferHandle {
            id: id.clone(),
            status: TransferStatus::Pending,
            bytes_transferred: 0,
            total_bytes,
            cancel_signal: cancel_tx,
        };
        match self.find_handle(&id) {
            Some(i) => {
                self.active_transfers.remove(i);
                self.active_transfers.insert(i, handle);
                proof {
                    assert(final(self).handles() =~= old(self).handles().update(
                        i as int,
                        final(self).handles()[i as int],
                    ));
                }
            },
            None => {
                self.active_transfers.push(handle);
            },
        }
        Some(cancel_rx)
    }

    /// Record progress for the matching handle; a pending handle becomes
    /// in-progress. A missing id is a no-op: it typically means the handle
    /// was already cleaned up.
    pub fn update_progress(&mut self, id: &TransferId, bytes: u64)
        requires
            old(self).wf(),
        ensures
            final(self).wf(),
            final(self).spec_stopping() == old(self).spec_stopping(),
            !has_id(old(self).handles(), id@) ==> final(self).handles() == old(self).handles(),
            has_id(old(self).handles(), id@) ==> exists|i: int|
                {
                    &&& 0 <= i < old(self).handles().len()
                    &&& (#[trigger] old(self).handles()[i]).id@ == id@
                    &&& final(self).handles().len() == old(self).handles().len()
                    &&& final(self).handles()[i].id == old(self).handles()[i].id
                    &&& final(self).handles()[i].bytes_transferred == bytes
                    &&& final(self).handles()[i].status == (if old(self).handles()[i].status
                        == TransferStatus::Pending {
                        TransferStatus::InProgress
                    } else {
                        old(self).handles()[i].status
                    })
                    &&& final(self).handles()[i].total_bytes == old(
                        self,
                    ).handles()[i].total_bytes
                    &&& final(self).handles()[i].cancel_signal == old(
                        self,
                    ).handles()[i].cancel_signal
                    &&& forall|j: int|
                        0 <= j < old(self).handles().len() && j != i ==> final(self).handles()[j]
                            == old(self).handles()[j]
                },
    {
        if let Some(i) = self.find_handle(id) {
            let mut h = self.active_transfers.remove(i);
            h.bytes_transferred = bytes;
            if h.status == TransferStatus::Pending {
                h.status = TransferStatus::InProgress;
            }
            self.active_transfers.insert(i, h);
            proof {
                assert(final(self).handles() =~= old(self).handles().update(
                    i as int,
                    final(self).handles()[i as int],
                ));
            }
        }
    }

    /// Mark the matching handle completed; a missing id is a no-op.
    pub fn complete_transfer(&mut self, id: &TransferId)
        requires
            old(self).wf(),
        ensures
            final(self).wf(),
            final(self).spec_stopping() == old(self).spec_stopping(),
            !has_id(old(self).handles(), id@) ==> final(self).handles() == old(self).handles(),
            has_id(old(self).handles(), id@) ==> exists|i: int|
                {
                    &&& 0 <= i < old(self).handles().len()
                    &&& (#[trigger] old(self).handles()[i]).id@ == id@
                    &&& status_set_at(
                        old(self).handles(),
                        final(self).handles(),
                        i,
                        TransferStatus::Completed,
                    )
                },
    {
        if let Some(i) = self.find_handle(id) {
            let mut h = self.active_transfers.remove(i);
            h.status = TransferStatus::Completed;
            self.active_transfers.insert(i, h);
            proof {
                assert(final(self).handles() =~= old(self).handles().update(
                    i as int,
                    final(self).handles()[i as int],
                ));
            }
        }
    }

    /// Mark the matching handle failed; a missing id is a no-op.
    pub fn fail_transfer(&mut self, id: &TransferId)
        requires
            old(self).wf(),
        ensures
            final(self).wf(),
            final(self).spec_stopping() == old(self).spec_stopping(),
            !has_id(old(self).handles(), id@) ==> final(self).handles() == old(self).handles(),
            has_id(old(self).handles(), id@) ==> exists|i: int|
                {
                    &&& 0 <= i < old(self).handles().len()
                    &&& (#[trigger] old(self).handles()[i]).id@ == id@
                    &&& status_set_at(
                        old(self).handles(),
                        final(self).handles(),
                        i,
                        TransferStatus::Failed,
                    )
                },
    {
        if let Some(i) = self.find_handle(id) {
            let mut h = self.active_transfers.remove(i);
            h.status = TransferStatus::Failed;
            self.active_transfers.insert(i, h);
            proof {
                assert(final(self).handles() =~= old(self).handles().update(
                    i as int,
                    final(self).handles()[i as int],
                ));
            }
        }
    }

    /// Cancel the matching handle and fire its cancellation signal. Returns
    /// whether a handle carried the id.
    pub fn cancel_transfer(&mut self, id: &TransferId) -> (r: bool)
        requires
            old(self).wf(),
        ensures
            final(self).wf(),
            final(self).spec_stopping() == old(self).spec_stopping(),
            r == has_id(old(self).handles(), id@),
            !r ==> final(self).handles() == old(self).handles(),
            r ==> exists|i: int|
                {
                    &&& 0 <= i < old(self).handles().len()
                    &&& (#[trigger] old(self).handles()[i]).id@ == id@
                    &&& status_set_at(
                        old(self).handles(),
                        final(self).handles(),
                        i,
                        TransferStatus::Cancelled,
                    )
                },
    {
        if let Some(i) = self.find_handle(id) {
            let mut h = self.active_transfers.remove(i);
            h.status = TransferStatus::Cancelled;
            let _ = h.cancel_signal.send(());
            self.active_transfers.insert(i, h);
            proof {
                assert(final(self).handles() =~= old(self).handles().update(
                    i as int,
                    final(self).handles()[i as int],
                ));
            }
            true
        } else {
            false
        }
    }

    /// Cancel every handle still in a non-terminal status, firing each
    /// cancellation signal.
    pub fn cancel_all_transfers(&mut self)
        requires
            old(self).wf(),
        ensures
            final(self).wf(),
            final(self).spec_stopping() == old(self).spec_stopping(),
            all_cancelled(old(self).handles(), final(self).handles()),
    {
        let mut i: usize = 0;
        while i < self.active_transfers.len()
            invariant
                self.wf(),
                i <= self.handles().len(),
                self.handles().len() == old(self).handles().len(),
                self.spec_stopping() == old(self).spec_stopping(),
                forall|k: int|
                    i <= k < self.handles().len() ==> (#[trigger] self.handles()[k]) == old(
                        self,
                    ).handles()[k],
                forall|k: int|
                    0 <= k < i ==> {
                        &&& (#[trigger] self.handles()[k]).id == old(self).handles()[k].id
                        &&& self.handles()[k].bytes_transferred == old(
                            self,
                        ).handles()[k].bytes_transferred
                        &&& self.handles()[k].total_bytes == old(self).handles()[k].total_bytes
                        &&& self.handles()[k].cancel_signal == old(
                            self,
                        ).handles()[k].cancel_signal
                        &&& self.handles()[k].status == (if is_active(
                            old(self).handles()[k].status,
                        ) {
                            TransferStatus::Cancelled
                        } else {
                            old(self).handles()[k].status
                        })
                    },
            decreases self.handles().len() - i,
        {
            let ghost pre_iter = self.handles();
            let st = self.active_transfers[i].status;
            if st == TransferStatus::Pending || st == TransferStatus::InProgress || st
                == TransferStatus::Paused {
                let mut h = self.active_transfers.remove(i);
                h.status = TransferStatus::Cancelled;
                let _ = h.cancel_signal.send(());
                self.active_transfers.insert(i, h);
                proof {
                    assert(self.handles() =~= pre_iter.update(
                        i as int,
                        self.handles()[i as int],
                    ));
                }
            }
            i = i + 1;
        }
    }

    /// Pause the matching handle: only an in-progress transfer can pause.
    /// Returns whether it did.
    pub fn pause_transfer(&mut self, id: &TransferId) -> (r: bool)
        requires
            old(self).wf(),
        ensures
            final(self).wf(),
            final(self).spec_stopping() == old(self).spec_stopping(),
            r == exists|i: int|
                {
                    &&& 0 <= i < old(self).handles().len()
                    &&& (#[trigger] old(self).handles()[i]).id@ == id@
                    &&& old(self).handles()[i].status == TransferStatus::InProgress
                },
            !r ==> final(self).handles() == old(self).handles(),
            r ==> exists|i: int|
                {
                    &&& 0 <= i < old(self).handles().len()
                    &&& (#[trigger] old(self).handles()[i]).id@ == id@
                    &&& status_set_at(
                        old(self).handles(),
                        final(self).handles(),
                        i,
                        TransferStatus::Paused,
                    )
                },
    {
        if let Some(i) = self.find_handle(id) {
            if self.active_transfers[i].status == TransferStatus::InProgress {
                let mut h = self.active_transfers.remove(i);
                h.status = TransferStatus::Paused;
                self.active_transfers.insert(i, h);
                proof {
                    assert(final(self).handles() =~= old(self).handles().update(
                        i as int,
                        final(self).handles()[i as int],
                    ));
                }
                return true;
            }
        }
        false
    }

    /// Resume the matching handle: only a paused transfer resumes, and never
    /// while the runtime is stopping. Returns whether it did.
    pub fn resume_transfer(&mut self, id: &TransferId) -> (r: bool)
        requires
            old(self).wf(),
        ensures
            final(self).wf(),
            final(self).spec_stopping() == old(self).spec_stopping(),
            r == (!old(self).spec_stopping() && exists|i: int|
                {
                    &&& 0 <= i < old(self).handles().len()
                    &&& (#[trigger] old(self).handles()[i]).id@ == id@
                    &&& old(self).handles()[i].status == TransferStatus::Paused
                }),
            !r ==> final(self).handles() == old(self).handles(),
            r ==> exists|i: int|
                {
                    &&& 0 <= i < old(self).handles().len()
                    &&& (#[trigger] old(self).handles()[i]).id@ == id@
                    &&& status_set_at(
                        old(self).handles(),
                        final(self).handles(),
                        i,
                        TransferStatus::InProgress,
                    )
                },
    {
        if self.stopping {
            return false;
        }
        if let Some(i) = self.find_handle(id) {
            if self.active_transfers[i].status == TransferStatus::Paused {
                let mut h = self.active_transfers.remove(i);
                h.status = TransferStatus::InProgress;
                self.active_transfers.insert(i, h);
                proof {
                    assert(final(self).handles() =~= old(self).handles().update(
                        i as int,
                        final(self).handles()[i as int],
                    ));
                }
                return true;
            }
        }
        false
    }

    /// The in-flight transfers: id, status, progress and expected size of
    /// every handle not yet completed, failed or cancelled.
    pub fn get_active_transfers(&self) -> (res: Vec<(TransferId, TransferStatus, u64, Option<u64>)>)
        ensures
            res@ == actives_of(self.handles()),
    {
        let mut res: Vec<(TransferId, TransferStatus, u64, Option<u64>)> = Vec::new();
        let mut i: usize = 0;
        let n = self.active_transfers.len();
        while i < n
            invariant
                i <= n,
                n == self.handles().len(),
                res@ == actives_of(self.handles().take(i as int)),
            decreases n - i,
        {
            proof {
                assert(self.handles().take(i as int + 1).drop_last() =~= self.handles().take(
                    i as int,
                ));
                assert(self.handles().take(i as int + 1).last() == self.handles()[i as int]);
            }
            let h = &self.active_transfers[i];
            let st = h.status;
            if st == TransferStatus::Pending || st == TransferStatus::InProgress || st
                == TransferStatus::Paused {
                res.push((h.id.clone(), h.status, h.bytes_transferred, h.total_bytes));
            }
            i = i + 1;
        }
        proof {
            assert(self.handles().take(n as int) =~= self.handles());
        }
        res
    }

    /// Purge handles in a terminal status. This is the only way a handle is
    /// ever removed.
    pub fn cleanup_finished(&mut self)
        requires
            old(self).wf(),
        ensures
            final(self).wf(),
            final(self).spec_stopping() == old(self).spec_stopping(),
            final(self).handles() == retained_of(old(self).handles()),
    {
        let ghost pre = self.handles();
        let mut i: usize = 0;
        let ghost j: int = 0;
        while i < self.active_transfers.len()
            invariant
                0 <= j <= pre.len(),
                i as int == retained_of(pre.take(j)).len(),
                self.spec_stopping() == old(self).spec_stopping(),
                self.handles() =~= retained_of(pre.take(j)) + pre.skip(j),
                pre == old(self).handles(),
            decreases pre.len() - j,
        {
            proof {
                assert(pre.take(j + 1).drop_last() =~= pre.take(j));
                assert(pre.take(j + 1).last() == pre[j]);
                assert(self.handles()[i as int] == pre[j]);
            }
            let st = self.active_transfers[i].status;
            if st == TransferStatus::Pending || st == TransferStatus::InProgress || st
                == TransferStatus::Paused {
                i = i + 1;
            } else {
                self.active_transfers.remove(i);
                proof {
                    assert(self.handles() =~= retained_of(pre.take(j + 1)) + pre.skip(j + 1));
                }
            }
            proof {
                j = j + 1;
                assert(self.handles() =~= retained_of(pre.take(j)) + pre.skip(j));
            }
        }
        proof {
            assert(pre.take(pre.len() as int) =~= pre);
            assert(pre.skip(pre.len() as int) =~= Seq::<TransferHandle>::empty());
            assert(final(self).handles() =~= retained_of(pre));
            lemma_retained_unique(pre);
        }
    }

    /// Subscribe to the one-shot shutdown signal.
    pub fn subscribe_shutdown(&self) -> tokio::sync::broadcast::Receiver<()> {
        self.shutdown_signal.subscribe()
    }

    /// Initiate graceful shutdown, idempotently: set the stopping flag —
    /// after which registrations fail — cancel every active handle, then
    /// broadcast the shutdown signal.
    pub fn shutdown(&mut self)
        requires
            old(self).wf(),
        ensures
            final(self).wf(),
            final(self).spec_stopping(),
            all_cancelled(old(self).handles(), final(self).handles()),
    {
        self.stopping = true;
        self.cancel_all_transfers();
        let _ = self.shutdown_signal.send(());
    }

    /// Apply a command to the registry, then broadcast it to subscribers.
    pub fn send_command(&mut self, cmd: RuntimeCommand)
        requires
            old(self).wf(),
        ensures
            final(self).wf(),
            cmd is Shutdown ==> final(self).spec_stopping() && all_cancelled(
                old(self).handles(),
                final(self).handles(),
            ),
            cmd is CancelAllTransfers ==> final(self).spec_stopping() == old(
                self,
            ).spec_stopping() && all_cancelled(old(self).handles(), final(self).handles()),
            cmd matches RuntimeCommand::CancelTransfer(id) ==> final(self).spec_stopping() == old(
                self,
            ).spec_stopping() && (has_id(old(self).handles(), id@) ==> exists|i: int|
                {
                    &&& 0 <= i < old(self).handles().len()
                    &&& (#[trigger] old(self).handles()[i]).id@ == id@
                    &&& status_set_at(
                        old(self).handles(),
                        final(self).handles(),
                        i,
                        TransferStatus::Cancelled,
                    )
                }) && (!has_id(old(self).handles(), id@) ==> final(self).handles() == old(
                self,
            ).handles()),
    {
        match &cmd {
            RuntimeCommand::Shutdown => {
                self.shutdown();
            },
            RuntimeCommand::CancelTransfer(id) => {
                self.cancel_transfer(id);
            },
            RuntimeCommand::CancelAllTransfers => {
                self.cancel_all_transfers();
            },
        }
        let _ = self.command_tx.send(cmd);
    }
}

impl Default for BackendRuntime {
    fn default() -> (rt: Self)
        ensures
            rt.wf(),
            !rt.spec_stopping(),
            rt.handles().len() == 0,
    {
        BackendRuntime::new()
    }
}

} // verus!
