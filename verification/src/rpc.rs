//! The trusted boundary toward the external RPC collaborator
//! (`remote_trait_object`): type declarations for the opaque values the state
//! machine carries, and thin wrappers around the calls it drives.

use vstd::prelude::*;
use remote_trait_object::raw_exchange::{HandleToExchange, Skeleton};
use remote_trait_object::transport::{TransportRecv, TransportSend};
use remote_trait_object::{Config, Context};
use std::sync::Arc;
use crate::coordinator_interface::PartialRtoConfig;

verus! {

/// The worker-pool handle every link's RPC context shares: one bounded
/// `threadpool::ThreadPool` behind a module-wide lock, so that method
/// dispatch across all links draws from one fixed concurrency budget.
pub type SharedWorkerPool = Arc<parking_lot::Mutex<threadpool::ThreadPool>>;

#[verifier::external_type_specification]
#[verifier::external_body]
pub struct ExSkeleton(Skeleton);

#[verifier::external_type_specification]
#[verifier::external_body]
pub struct ExHandleToExchange(HandleToExchange);

#[verifier::external_type_specification]
#[verifier::external_body]
pub struct ExContext(Context);

#[verifier::external_type_specification]
#[verifier::external_body]
pub struct ExConfig(Config);

#[verifier::external_type_specification]
#[verifier::external_body]
pub struct ExThreadPool(threadpool::ThreadPool);

#[verifier::external_type_specification]
#[verifier::external_body]
pub struct ExRawMutex(parking_lot::RawMutex);

#[verifier::external_type_specification]
#[verifier::external_body]
#[verifier::reject_recursive_types(R)]
#[verifier::reject_recursive_types(T)]
pub struct ExLockApiMutex<R, T: ?Sized>(lock_api::Mutex<R, T>);

/// Relies on `threadpool::ThreadPool::new`: a pool of exactly `size` worker
/// threads (the call panics on zero, which the precondition rules out).
#[verifier::external_body]
pub(crate) fn new_thread_pool(size: usize) -> threadpool::ThreadPool
    requires
        size >= 1,
{
    threadpool::ThreadPool::new(size)
}

/// Relies on `parking_lot::Mutex::new`: wraps the worker pool in the lock
/// under which the RPC layer borrows it.
#[verifier::external_body]
pub(crate) fn new_pool_lock(pool: threadpool::ThreadPool) -> parking_lot::Mutex<threadpool::ThreadPool> {
    parking_lot::Mutex::new(pool)
}

/// An RPC context together with its registration budget: the room its
/// registry was created with, and how many service objects this library has
/// registered into it so far. The id pool the registry draws from is finite
/// — `capacity` ids, two of which the RPC layer reserves for itself — and
/// exhausting it panics inside the collaborator, so every registration goes
/// through [`Self::register`], whose precondition keeps the count strictly
/// inside the room.
///
/// Residual trust: the collaborator can itself register service objects on
/// this context while marshalling nested service references inside method
/// calls; those registrations are invisible to the count and are trusted to
/// stay within the same room.
pub struct BoundContext {
    context: Context,
    capacity: usize,
    registered: usize,
}

impl BoundContext {
    /// The registry room this context was created with.
    pub closed spec fn capacity(&self) -> nat {
        self.capacity as nat
    }

    /// How many service objects the library has registered into it so far.
    pub closed spec fn registered(&self) -> nat {
        self.registered as nat
    }

    /// How many more service objects can still be registered before the id
    /// pool — the capacity minus the two reserved entries — is exhausted.
    pub(crate) fn remaining_budget(&self) -> (n: usize)
        requires
            self.registered() + 2 <= self.capacity(),
        ensures
            n == self.capacity() - self.registered() - 2,
    {
        self.capacity - 2 - self.registered
    }

    /// Registers one service object into the context's registry, counting it
    /// against the room the context was created with.
    pub(crate) fn register(&mut self, service: Skeleton) -> (h: HandleToExchange)
        requires
            old(self).registered() + 2 < old(self).capacity(),
        ensures
            final(self).registered() == old(self).registered() + 1,
            final(self).capacity() == old(self).capacity(),
    {
        let h = rto_export(self, service);
        self.registered = self.registered + 1;
        h
    }

    /// The underlying RPC context, for handing to the user module's import
    /// callback.
    pub(crate) fn context(&self) -> &Context {
        &self.context
    }
}

/// Relies on `remote_trait_object::Context::new`: constructs one end of an
/// RPC connection over the given transport halves, configured with the given
/// name, call-slot budget, call timeout, registry capacity and shared worker
/// pool. The freshly created registry holds two reserved service objects of
/// the RPC layer's own, inside the same capacity; nothing else is registered
/// yet.
#[verifier::external_body]
pub(crate) fn rto_context_new<S, R>(
    rto_config: &PartialRtoConfig,
    maximum_services_num: usize,
    thread_pool: &SharedWorkerPool,
    transport_send: S,
    transport_recv: R,
) -> (r: BoundContext) where S: TransportSend + 'static, R: TransportRecv + 'static
    ensures
        r.capacity() == maximum_services_num,
        r.registered() == 0,
{
    let config = Config {
        name: rto_config.name.clone(),
        call_slots: rto_config.call_slots,
        call_timeout: rto_config.call_timeout,
        maximum_services_num,
        thread_pool: Arc::clone(thread_pool),
    };
    BoundContext {
        context: Context::new(config, transport_send, transport_recv),
        capacity: maximum_services_num,
        registered: 0,
    }
}

/// Relies on `remote_trait_object::raw_exchange::export_service_into_handle`:
/// registers the skeleton in the context's service registry and returns the
/// fresh link-scoped handle under which the peer can import it. The call
/// draws a service id from the finite pool the context was created with —
/// `capacity` ids, two of them reserved — and panics when none is free; the
/// precondition keeps the library-driven registration count strictly inside
/// that pool, so a free id remains.
#[verifier::external_body]
fn rto_export(bound: &BoundContext, service: Skeleton) -> HandleToExchange
    requires
        bound.registered() + 2 < bound.capacity(),
{
    remote_trait_object::raw_exchange::export_service_into_handle(&bound.context, service)
}

/// Relies on `remote_trait_object::Context::disable_garbage_collection`: stops
/// this context's cross-reference tracking sweep, so that dropping a proxy no
/// longer sends a delete request to the peer.
#[verifier::external_body]
pub(crate) fn rto_disable_garbage_collection(bound: &BoundContext) {
    bound.context.disable_garbage_collection();
}

/// Relies on `remote_trait_object::Context::clear_service_registry`: drops
/// every service object exported through this context. A dropped service
/// object may itself own proxies, whose drop sends a delete request over
/// *other* live contexts unless their sweeps are already disabled — and that
/// send can panic once the peer is gone. No precondition over this one opaque
/// context can state that module-wide condition; the disable-all-sweeps-first
/// order that suppresses it is enforced by the verified module teardown
/// ([`crate::bootstrap::ModuleContext::shutdown`]). The registration budget
/// and capacity are untouched.
#[verifier::external_body]
pub(crate) fn rto_clear_service_registry(bound: &mut BoundContext)
    ensures
        final(bound).capacity() == old(bound).capacity(),
        final(bound).registered() == old(bound).registered(),
{
    bound.context.clear_service_registry();
}

} // verus!
