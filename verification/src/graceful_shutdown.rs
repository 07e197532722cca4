//! The executable close chain.
//!
//! Each tier is a zero-buffer rendezvous channel used only for its ownership
//! property: a tier is released exactly when every clone of its sending half
//! (the chain's own, and one back-reference per token one level deeper) has
//! been dropped, which every receiving half observes as a disconnect. The
//! tier list lives behind one lock; growing it and tearing it down are the
//! only critical sections, and no wait ever holds the lock.
//!
//! Each operation performs one step of [`crate::close_model::ChainModel`]:
//! `token_for` and `child_token` are `acquire`, `clone` is `clone_token`,
//! `teardown` is `teardown`, and dropping a token is `destroy`.

use vstd::prelude::*;
use vstd::rwlock::{RwLock, RwLockPredicate};
use std::sync::Arc;
use crate::close_model::TokenModel;

verus! {

#[verifier::external_type_specification]
#[verifier::external_body]
#[verifier::reject_recursive_types(T)]
pub struct ExSender<T>(flume::Sender<T>);

#[verifier::external_type_specification]
#[verifier::external_body]
#[verifier::reject_recursive_types(T)]
pub struct ExReceiver<T>(flume::Receiver<T>);

/// One tier: the signal source the chain itself holds until teardown, and the
/// sink that tokens of this tier clone and wait on.
struct TierEntry {
    source: flume::Sender<()>,
    sink: flume::Receiver<()>,
}

/// The lock-protected tier list. Teardown empties the list and latches the
/// flag, so tiers created afterwards are born released.
struct ChainState {
    tiers: Vec<TierEntry>,
    torn_down: bool,
}

/// Invariant of the lock: a torn-down chain holds no tier at all, so no
/// chain-held source can survive teardown.
struct ChainPred {}

impl RwLockPredicate<ChainState> for ChainPred {
    closed spec fn inv(self, s: ChainState) -> bool {
        s.torn_down ==> s.tiers@.len() == 0
    }
}

/// Relies on flume::bounded(0): creates a fresh rendezvous channel and returns
/// both halves of it.
#[verifier::external_body]
fn new_tier_channel() -> (t: TierEntry)
{
    let (source, sink) = flume::bounded(0);
    TierEntry { source, sink }
}

/// Relies on flume::bounded(0) and ownership drop: a receiver whose only
/// sender is dropped at once observes the channel as disconnected.
#[verifier::external_body]
fn dead_sink() -> (r: flume::Receiver<()>)
{
    flume::bounded::<()>(0).1
}

/// Relies on flume::Sender::clone: the clone is one more handle to the same
/// channel, and the channel disconnects only once every such handle is gone.
#[verifier::external_body]
fn clone_source(s: &flume::Sender<()>) -> (r: flume::Sender<()>)
{
    s.clone()
}

/// Relies on flume::Receiver::clone: the clone observes the same channel and
/// the same disconnect event.
#[verifier::external_body]
fn clone_sink(r: &flume::Receiver<()>) -> (c: flume::Receiver<()>)
{
    r.clone()
}

/// Relies on flume::Receiver::recv: on a channel nothing is ever sent on, it
/// blocks until every sender is dropped and then returns the disconnect,
/// which `.ok()` discards. It does not panic.
#[verifier::external_body]
fn wait_disconnect(r: &flume::Receiver<()>)
    opens_invariants none
    no_unwind
{
    r.recv().ok();
}

/// Relies on flume::Receiver::recv_timeout: on a channel nothing is ever sent
/// on, it returns Disconnected once every sender is dropped, else Timeout when
/// the duration elapses. The duration is bounded so that computing the
/// deadline from the current instant cannot overflow.
#[verifier::external_body]
fn wait_disconnect_timeout(r: &flume::Receiver<()>, secs: u64) -> (released: bool)
    requires
        secs <= 1_000_000_000,
{
    matches!(
        r.recv_timeout(std::time::Duration::from_secs(secs)),
        Err(flume::RecvTimeoutError::Disconnected)
    )
}

/// Relies on flume::Receiver::sender_count: the number of sender handles
/// still attached to the channel at the instant of the call.
#[verifier::external_body]
fn source_count(r: &flume::Receiver<()>) -> (n: usize)
{
    r.sender_count()
}

/// Relies on std::sync::Arc::clone: the clone is another pointer to the same
/// shared value.
#[verifier::external_body]
fn share<T>(a: &Arc<T>) -> (r: Arc<T>)
    ensures
        r == *a,
{
    Arc::clone(a)
}

/// An ordered, append-only registry of tiers. Created once at process
/// bootstrap, shared by handle, torn down exactly once by the owner.
pub struct CloseChain {
    inner: Arc<RwLock<ChainState, ChainPred>>,
}

impl CloseChain {
    /// The handle points at a lock whose invariant is the chain invariant.
    pub closed spec fn wf(self) -> bool {
        (*self.inner).pred() == (ChainPred {  })
    }

    /// A fresh chain with no tiers.
    pub fn create() -> (c: CloseChain)
        ensures
            c.wf(),
    {
        let state = ChainState { tiers: Vec::new(), torn_down: false };
        CloseChain { inner: Arc::new(RwLock::new(state, Ghost(ChainPred {  }))) }
    }

    /// Grows the tier list so indices `0..=tier` all exist (reusing existing
    /// tiers) and returns a token wired to `tier`: a sink clone of its own
    /// tier and, unless at tier 0, a back-reference into the tier above. On a
    /// torn-down chain the token observes immediate release and holds no
    /// back-reference, so nothing re-arms.
    pub fn token_for(&self, tier: usize) -> (t: CloseToken)
        requires
            self.wf(),
            tier < usize::MAX,
        ensures
            t.wf(),
            t@.depth == tier as nat,
            t@.holds_back_ref ==> 1 <= tier,
    {
        let (mut state, handle) = self.inner.acquire_write();
        if state.torn_down {
            let sink = dead_sink();
            handle.release_write(state);
            CloseToken { deep: tier, chain: self.clone(), close_rv: sink, prev_tx: None }
        } else {
            while state.tiers.len() <= tier
                invariant
                    !state.torn_down,
                    tier < usize::MAX,
                decreases tier + 1 - state.tiers.len(),
            {
                state.tiers.push(new_tier_channel());
            }
            let sink = clone_sink(&state.tiers[tier].sink);
            let prev_tx = if tier == 0 {
                None
            } else {
                Some(clone_source(&state.tiers[tier - 1].source))
            };
            handle.release_write(state);
            CloseToken { deep: tier, chain: self.clone(), close_rv: sink, prev_tx }
        }
    }

    /// Atomically replaces the tier list with an empty one, dropping every
    /// source and sink the chain itself held. This is the sole trigger of the
    /// release cascade, and it is irreversible: tokens created afterwards are
    /// born released.
    pub fn teardown(&self)
        requires
            self.wf(),
    {
        let (mut state, handle) = self.inner.acquire_write();
        state.tiers = Vec::new();
        state.torn_down = true;
        handle.release_write(state);
    }

    /// How many tiers the chain currently holds (zero after teardown).
    pub fn len(&self) -> (n: usize)
        requires
            self.wf(),
    {
        let read_handle = self.inner.acquire_read();
        let n = read_handle.borrow().tiers.len();
        read_handle.release_read();
        n
    }
}

impl Clone for CloseChain {
    /// Another handle to the same chain.
    fn clone(&self) -> (c: Self)
        ensures
            c == *self,
    {
        CloseChain { inner: share(&self.inner) }
    }
}

/// A component's handle on one tier: the means to wait for that tier's
/// release and, unless at tier 0, a back-reference that delays the release of
/// the tier one level shallower. Its abstract value is the
/// [`TokenModel`] it registers in the chain.
pub struct CloseToken {
    deep: usize,
    chain: CloseChain,
    close_rv: flume::Receiver<()>,
    prev_tx: Option<flume::Sender<()>>,
}

impl View for CloseToken {
    type V = TokenModel;

    closed spec fn view(&self) -> TokenModel {
        TokenModel { depth: self.deep as nat, holds_back_ref: self.prev_tx is Some }
    }
}

impl CloseToken {
    /// The chain handle is intact and a back-reference exists only above
    /// tier 0.
    pub closed spec fn wf(self) -> bool {
        &&& self.chain.wf()
        &&& self@.holds_back_ref ==> 1 <= self@.depth
    }

    /// The tier this token is bound to.
    pub fn deep(&self) -> (d: usize)
        ensures
            d as nat == self@.depth,
    {
        self.deep
    }

    /// A handle to the chain this token belongs to.
    pub fn chain(&self) -> (c: CloseChain)
        requires
            self.wf(),
        ensures
            c.wf(),
    {
        self.chain.clone()
    }

    /// Tears the chain down, then blocks until this token's own tier
    /// releases: the owner's "begin shutdown, then wait for my turn".
    pub fn close(&self)
        requires
            self.wf(),
    {
        self.chain.teardown();
        self.closed();
    }

    /// Tears the chain down, then waits up to `timeout` seconds for this
    /// token's own tier to release; reports whether release was observed.
    pub fn close_with_timeout(&self, timeout: u64) -> (released: bool)
        requires
            self.wf(),
            timeout <= 1_000_000_000,
    {
        self.chain.teardown();
        self.closed_with_timeout(timeout)
    }

    /// Blocks the calling thread until this tier releases. The disconnect it
    /// observes is the success signal, never an error; once released, every
    /// further call returns immediately.
    pub fn closed(&self)
    {
        wait_disconnect(&self.close_rv);
    }

    /// Blocks up to `timeout` seconds; reports true exactly when release was
    /// observed (also when it had already happened), false on timeout. The
    /// token stays valid and re-waitable either way.
    pub fn closed_with_timeout(&self, timeout: u64) -> (released: bool)
        requires
            timeout <= 1_000_000_000,
    {
        wait_disconnect_timeout(&self.close_rv, timeout)
    }

    /// Registers a child one tier deeper on the shared chain (allocating that
    /// tier if needed — concurrent siblings land on the same one) and wires
    /// its back-reference into this token's tier.
    pub fn child_token(&self) -> (child: CloseToken)
        requires
            self.wf(),
            self@.depth + 1 < usize::MAX as nat,
        ensures
            child.wf(),
            child@.depth == self@.depth + 1,
    {
        self.chain.token_for(self.deep + 1)
    }

    /// How many signal sources are still attached to this token's tier: the
    /// chain's own source plus one back-reference per token one tier deeper.
    pub fn sender_count(&self) -> (n: usize)
    {
        source_count(&self.close_rv)
    }

    /// A sink clone of this token's tier, for waits that must happen outside
    /// this library (an asynchronous wait in the host application). It
    /// observes the same release event and delays nothing.
    pub fn release_sink(&self) -> (r: flume::Receiver<()>)
    {
        clone_sink(&self.close_rv)
    }
}

impl Default for CloseToken {
    /// A fresh chain with this token at tier 0: the process owner's root
    /// token.
    fn default() -> (t: Self)
        ensures
            t.wf(),
            t@.depth == 0,
            !t@.holds_back_ref,
    {
        CloseChain::create().token_for(0)
    }
}

impl Clone for CloseToken {
    /// A sibling handle on the same tier of the same chain: sink clone and
    /// back-reference are duplicated, so the clone delays release exactly as
    /// the token it was cloned from does.
    fn clone(&self) -> (r: Self)
        ensures
            r@ == self@,
            self.wf() ==> r.wf(),
    {
        CloseToken {
            deep: self.deep,
            chain: self.chain.clone(),
            close_rv: clone_sink(&self.close_rv),
            prev_tx: match &self.prev_tx {
                Some(tx) => Some(clone_source(tx)),
                None => None,
            },
        }
    }
}

impl Drop for CloseToken {
    /// Destruction blocks on the token's own tier before releasing its
    /// clones: leaving scope is an enforced barrier, so a component cannot
    /// disappear before everything registered deeper than it has finished.
    /// Dropping a token whose tier can no longer release (the chain never
    /// torn down, or a deeper token held forever) blocks forever; keeping
    /// tokens no longer than their component lives is a caller obligation.
    fn drop(&mut self)
        opens_invariants none
        no_unwind
    {
        wait_disconnect(&self.close_rv);
    }
}

} // verus!
