use vstd::prelude::*;
use remote_trait_object::raw_exchange::{HandleToExchange, Skeleton};
use remote_trait_object::transport::{TransportRecv, TransportSend};
use remote_trait_object::Context;
use crate::bootstrap::ExportingServicePool;
use crate::coordinator_interface::PartialRtoConfig;
use crate::fault::Fault;
use crate::module::UserModule;
use crate::rpc;

verus! {

/// Total number of service-object ids each link's registry is created with.
/// Two of them are reserved for the RPC layer's own services, so one link can
/// export at most this many services minus two.
pub const MAX_SERVICES_PER_LINK: usize = 65536;

/// The mathematical state of one link.
#[verifier::ext_equal]
pub ghost struct LinkModel {
    /// The peer module's name.
    pub peer: Seq<char>,
    /// Whether `initialize` has bound a transport and an RPC context.
    pub bound: bool,
    /// Whether the cross-reference tracking sweep has been disabled
    /// (the first teardown phase).
    pub gc_disabled: bool,
    /// Whether the service registry has been cleared
    /// (the second teardown phase).
    pub registry_cleared: bool,
    /// How many services were exported over this link so far.
    pub exports_done: nat,
    /// The registry room of the bound RPC context (zero while unbound): the
    /// number of service-object ids it was created with, two of which the RPC
    /// layer reserves for itself.
    pub capacity: nat,
}

impl LinkModel {
    /// Well-formedness of a link: teardown proceeds strictly from a bound
    /// link to a disabled sweep and only then to a cleared registry, and the
    /// registry was never handed more services than its room can hold.
    pub open spec fn inv(self) -> bool {
        &&& self.gc_disabled ==> self.bound
        &&& self.registry_cleared ==> self.gc_disabled
        &&& self.bound ==> self.exports_done + 2 <= self.capacity
        &&& !self.bound ==> self.exports_done == 0 && self.capacity == 0
    }
}

/// The first fault an export scan over `ids` reports at or after position
/// `k`, given the staged slots `pool`: an index out of the pool's range, or a
/// slot that is empty — either because it was never staged again after an
/// earlier export or because `ids` itself names it twice.
pub open spec fn export_fault_from(pool: Seq<Option<Skeleton>>, ids: Seq<usize>, k: int) -> Option<Fault>
    decreases ids.len() - k,
{
    if k < 0 || k >= ids.len() {
        None
    } else if ids[k] >= pool.len() {
        Some(Fault::IndexOutOfRange)
    } else if pool[ids[k] as int] is None || (exists|j: int| 0 <= j < k && ids[j] == ids[k]) {
        Some(Fault::AlreadyExported)
    } else {
        export_fault_from(pool, ids, k + 1)
    }
}

/// The staged slots after the handles at `ids` have all been taken: exactly
/// those slots are emptied, every other slot keeps its content.
pub open spec fn pool_after_export(pool: Seq<Option<Skeleton>>, ids: Seq<usize>) -> Seq<Option<Skeleton>> {
    Seq::new(
        pool.len(),
        |i: int|
            if exists|j: int| 0 <= j < ids.len() && ids[j] == i {
                None
            } else {
                pool[i]
            },
    )
}

/// Whether `export` succeeds: the link is bound and not torn down, the
/// registry can still take all of `ids`, and the scan over `ids` finds every
/// index in range, staged, and not repeated.
pub open spec fn export_ok(pre: LinkModel, pool: Seq<Option<Skeleton>>, ids: Seq<usize>) -> bool {
    &&& pre.bound
    &&& !pre.registry_cleared
    &&& pre.exports_done + ids.len() + 2 <= pre.capacity
    &&& export_fault_from(pool, ids, 0) is None
}

/// The fault `export` reports when it does not succeed.
pub open spec fn export_fault(pre: LinkModel, pool: Seq<Option<Skeleton>>, ids: Seq<usize>) -> Fault {
    if !pre.bound {
        Fault::PortNotBound
    } else if pre.registry_cleared {
        Fault::AlreadyShutDown
    } else if pre.exports_done + ids.len() + 2 > pre.capacity {
        Fault::RegistryFull
    } else {
        export_fault_from(pool, ids, 0)->0
    }
}

/// Whether `import` succeeds: the link is bound and not torn down, and the
/// user module instance is still present to receive the proxies.
pub open spec fn import_ok(pre: LinkModel, user_present: bool) -> bool {
    pre.bound && !pre.registry_cleared && user_present
}

/// The fault `import` reports when it does not succeed.
pub open spec fn import_fault(pre: LinkModel, user_present: bool) -> Fault {
    if !pre.bound {
        Fault::PortNotBound
    } else if pre.registry_cleared {
        Fault::AlreadyShutDown
    } else {
        Fault::ModuleUnavailable
    }
}

/// A scan that reports no fault certifies every position: each index is in
/// range, its slot is staged, and no earlier position names the same index.
proof fn lemma_export_scan_ok(pool: Seq<Option<Skeleton>>, ids: Seq<usize>, k: int)
    requires
        0 <= k <= ids.len(),
        export_fault_from(pool, ids, k) is None,
        forall|j: int, m: int| 0 <= j < m < k ==> ids[j] != ids[m],
    ensures
        forall|m: int| 0 <= m < ids.len() && m >= k ==> ids[m] < pool.len(),
        forall|m: int| 0 <= m < ids.len() && m >= k ==> pool[ids[m] as int] is Some,
        forall|j: int, m: int| 0 <= j < m < ids.len() ==> ids[j] != ids[m],
    decreases ids.len() - k,
{
    if k < ids.len() {
        assert(forall|j: int| 0 <= j < k ==> ids[j] != ids[k]);
        lemma_export_scan_ok(pool, ids, k + 1);
    }
}

/// Law: a staged handle leaves its slot at most once. After one successful
/// export of `index` the slot is empty, and a second export of the same index
/// meets exactly the `AlreadyExported` fault condition.
pub proof fn lemma_second_export_faults(pool: Seq<Option<Skeleton>>, index: usize)
    requires
        index < pool.len(),
        pool[index as int] is Some,
    ensures
        pool.update(index as int, None)[index as int] is None,
        export_fault_from(pool.update(index as int, None), seq![index], 0) == Some(
            Fault::AlreadyExported,
        ),
{
}

/// Law: no link's registry is ever cleared before that link's own tracking
/// sweep is disabled — on every well-formed link, a cleared registry implies
/// a disabled sweep, which in turn implies a bound transport.
pub proof fn lemma_clear_follows_disable(link: LinkModel)
    requires
        link.inv(),
        link.registry_cleared,
    ensures
        link.gc_disabled,
        link.bound,
{
}

/// One bidirectional link to exactly one peer module: owns the per-link RPC
/// context once a transport is bound, implements the export/import handshake
/// against the module's shared staging pool and user instance, and carries
/// the two teardown phases — disable the tracking sweep, then clear the
/// service registry — in that order and only in that order.
pub struct ModulePort {
    connected_module_name: String,
    rto_context: Option<rpc::BoundContext>,
    gc_disabled: bool,
    registry_cleared: bool,
}

impl View for ModulePort {
    type V = LinkModel;

    closed spec fn view(&self) -> LinkModel {
        LinkModel {
            peer: self.connected_module_name@,
            bound: self.rto_context is Some,
            gc_disabled: self.gc_disabled,
            registry_cleared: self.registry_cleared,
            exports_done: if self.rto_context is Some {
                self.rto_context->0.registered()
            } else {
                0
            },
            capacity: if self.rto_context is Some {
                self.rto_context->0.capacity()
            } else {
                0
            },
        }
    }
}

impl ModulePort {
    /// Well-formedness of the link's concrete state.
    pub open spec fn wf(&self) -> bool {
        self@.inv()
    }

    /// Creates an unbound link toward the named peer.
    pub fn new(connected_module_name: String) -> (r: Self)
        ensures
            r@ == (LinkModel {
                peer: connected_module_name@,
                bound: false,
                gc_disabled: false,
                registry_cleared: false,
                exports_done: 0,
                capacity: 0,
            }),
            r.wf(),
    {
        Self {
            connected_module_name,
            rto_context: None,
            gc_disabled: false,
            registry_cleared: false,
        }
    }

    /// Whether `initialize` has bound a transport to this link.
    pub fn is_bound(&self) -> (b: bool)
        ensures
            b == self@.bound,
    {
        self.rto_context.is_some()
    }

    /// The peer module's name.
    pub fn peer_name(&self) -> (r: &String)
        ensures
            r@ == self@.peer,
    {
        &self.connected_module_name
    }

    /// Binds a transport to this link: constructs the RPC context over the
    /// two transport halves with the given configuration and the module's
    /// shared worker pool. Faults — changing nothing — if the link is
    /// already bound: a link is initialized exactly once.
    pub fn initialize<S, R>(
        &mut self,
        rto_config: PartialRtoConfig,
        transport_send: S,
        transport_recv: R,
        thread_pool: &rpc::SharedWorkerPool,
    ) -> (r: Result<(), Fault>) where S: TransportSend + 'static, R: TransportRecv + 'static
        requires
            old(self).wf(),
        ensures
            final(self).wf(),
            old(self)@.bound ==> {
                &&& r == Err::<(), Fault>(Fault::PortAlreadyBound)
                &&& final(self)@ == old(self)@
            },
            !old(self)@.bound ==> {
                &&& r == Ok::<(), Fault>(())
                &&& final(self)@ == (LinkModel {
                    bound: true,
                    exports_done: 0,
                    capacity: MAX_SERVICES_PER_LINK as nat,
                    ..old(self)@
                })
            },
    {
        if self.rto_context.is_some() {
            return Err(Fault::PortAlreadyBound);
        }
        let ctx = rpc::rto_context_new(
            &rto_config,
            MAX_SERVICES_PER_LINK,
            thread_pool,
            transport_send,
            transport_recv,
        );
        self.rto_context = Some(ctx);
        Ok(())
    }

    /// Takes the staged handles at `ids` from the shared staging pool, in the
    /// order of `ids`, and registers each into this link's RPC context; the
    /// returned capability handles match that order. Faults — leaving the
    /// pool and the link unchanged — on an unbound or torn-down link, on a
    /// registry that cannot take them all, and on any index that is out of
    /// range, already exported, or repeated.
    #[verifier::loop_isolation(false)]
    pub fn export(&mut self, pool: &mut ExportingServicePool, ids: &[usize]) -> (r: Result<
        Vec<HandleToExchange>,
        Fault,
    >)
        requires
            old(self).wf(),
        ensures
            final(self).wf(),
            export_ok(old(self)@, old(pool)@, ids@) ==> {
                &&& r is Ok
                &&& r->Ok_0@.len() == ids@.len()
                &&& final(pool)@ == pool_after_export(old(pool)@, ids@)
                &&& final(self)@ == (LinkModel {
                    exports_done: old(self)@.exports_done + ids@.len(),
                    ..old(self)@
                })
            },
            !export_ok(old(self)@, old(pool)@, ids@) ==> {
                &&& r == Err::<Vec<HandleToExchange>, Fault>(export_fault(
                    old(self)@,
                    old(pool)@,
                    ids@,
                ))
                &&& final(pool)@ == old(pool)@
                &&& final(self)@ == old(self)@
            },
    {
        if self.rto_context.is_none() {
            return Err(Fault::PortNotBound);
        }
        if self.registry_cleared {
            return Err(Fault::AlreadyShutDown);
        }
        let capacity_left: usize = match &self.rto_context {
            Some(bound) => bound.remaining_budget(),
            None => {
                proof {
                    assert(false);
                }
                return Err(Fault::PortNotBound);
            },
        };
        if ids.len() > capacity_left {
            return Err(Fault::RegistryFull);
        }
        let ghost pool0 = pool@;

        // Validation pass: find the first protocol violation, if any, before
        // taking anything out of the pool.
        let mut k: usize = 0;
        while k < ids.len()
            invariant
                k <= ids@.len(),
                self@ == old(self)@,
                pool@ == pool0,
                export_fault_from(pool0, ids@, 0) == export_fault_from(pool0, ids@, k as int),
                forall|j: int, m: int| 0 <= j < m < k ==> ids@[j] != ids@[m],
            decreases ids@.len() - k,
        {
            let id = ids[k];
            if id >= pool.len() {
                proof {
                    assert(export_fault_from(pool0, ids@, k as int) == Some(
                        Fault::IndexOutOfRange,
                    ));
                }
                return Err(Fault::IndexOutOfRange);
            }
            if !pool.is_staged(id) {
                proof {
                    assert(export_fault_from(pool0, ids@, k as int) == Some(
                        Fault::AlreadyExported,
                    ));
                }
                return Err(Fault::AlreadyExported);
            }
            let mut dup = false;
            let mut j: usize = 0;
            while j < k
                invariant
                    j <= k,
                    k < ids@.len(),
                    dup == (exists|m: int| 0 <= m < j && ids@[m] == ids@[k as int]),
                decreases k - j,
            {
                if ids[j] == ids[k] {
                    dup = true;
                }
                j += 1;
            }
            if dup {
                proof {
                    assert(export_fault_from(pool0, ids@, k as int) == Some(
                        Fault::AlreadyExported,
                    ));
                }
                return Err(Fault::AlreadyExported);
            }
            proof {
                assert(export_fault_from(pool0, ids@, k as int) == export_fault_from(
                    pool0,
                    ids@,
                    k as int + 1,
                ));
                assert(forall|j: int| 0 <= j < k ==> ids@[j] != ids@[k as int]);
            }
            k += 1;
        }
        proof {
            lemma_export_scan_ok(pool0, ids@, 0);
        }

        // Taking pass: every index is now known to be valid.
        let mut out: Vec<HandleToExchange> = Vec::new();
        let mut k: usize = 0;
        while k < ids.len()
            invariant
                k <= ids@.len(),
                out@.len() == k,
                self@ == (LinkModel {
                    exports_done: (old(self)@.exports_done + k) as nat,
                    ..old(self)@
                }),
                pool0 == old(pool)@,
                pool@ == pool_after_export(pool0, ids@.subrange(0, k as int)),
                forall|m: int| 0 <= m < ids@.len() ==> ids@[m] < pool0.len(),
                forall|m: int| 0 <= m < ids@.len() ==> pool0[ids@[m] as int] is Some,
                forall|j: int, m: int| 0 <= j < m < ids@.len() ==> ids@[j] != ids@[m],
            decreases ids@.len() - k,
        {
            proof {
                let sub0 = ids@.subrange(0, k as int);
                let target = ids@[k as int] as int;
                if exists|j: int| 0 <= j < sub0.len() && sub0[j] == target {
                    let j = choose|j: int| 0 <= j < sub0.len() && sub0[j] == target;
                    assert(ids@[j] == ids@[k as int]);
                    assert(false);
                }
                assert(pool@[target] == pool0[target]);
                assert(pool@[target] is Some);
            }
            let taken = pool.export(ids[k]);
            let service = match taken {
                Ok(s) => s,
                Err(_) => {
                    proof {
                        assert(false);
                    }
                    return Err(Fault::AlreadyExported);
                },
            };
            let h = match &mut self.rto_context {
                Some(bound) => bound.register(service),
                None => {
                    proof {
                        assert(false);
                    }
                    return Err(Fault::PortNotBound);
                },
            };
            out.push(h);
            proof {
                let sub0 = ids@.subrange(0, k as int);
                let sub1 = ids@.subrange(0, k as int + 1);
                assert(sub1[k as int] == ids@[k as int]);
                assert forall|i: int| 0 <= i < pool0.len() implies #[trigger] pool@[i]
                    == pool_after_export(pool0, sub1)[i] by {
                    if exists|j: int| 0 <= j < sub1.len() && sub1[j] == i {
                        let j = choose|j: int| 0 <= j < sub1.len() && sub1[j] == i;
                        if j == k as int {
                            assert(i == ids@[k as int]);
                            assert(pool@[i] is None);
                        } else {
                            assert(sub0[j] == sub1[j]);
                            assert(exists|j2: int| 0 <= j2 < sub0.len() && sub0[j2] == i);
                        }
                    } else {
                        assert(i != ids@[k as int]);
                        if exists|j2: int| 0 <= j2 < sub0.len() && sub0[j2] == i {
                            let j2 = choose|j2: int| 0 <= j2 < sub0.len() && sub0[j2] == i;
                            assert(sub1[j2] == i);
                            assert(false);
                        }
                    }
                }
                assert(pool@ =~= pool_after_export(pool0, sub1));
            }
            k += 1;
        }
        proof {
            assert(ids@.subrange(0, ids@.len() as int) =~= ids@);
        }
        Ok(out)
    }

    /// Hands each `(slot name, capability handle)` pair to the user module's
    /// import callback, in slot order, together with this link's RPC context
    /// and the peer's name; the callback turns the handle into a live proxy.
    /// Faults — changing nothing — on an unbound or torn-down link, and when
    /// the user module instance is gone (shutdown already began).
    pub fn import<T: UserModule>(
        &self,
        user: &mut Option<T>,
        slots: &[(String, HandleToExchange)],
    ) -> (r: Result<(), Fault>)
        ensures
            import_ok(self@, (*old(user)) is Some) ==> {
                &&& r == Ok::<(), Fault>(())
                &&& (*final(user)) is Some
            },
            !import_ok(self@, (*old(user)) is Some) ==> {
                &&& r == Err::<(), Fault>(import_fault(self@, (*old(user)) is Some))
                &&& *final(user) == *old(user)
            },
    {
        let ctx: &Context = match &self.rto_context {
            Some(bound) => bound.context(),
            None => {
                return Err(Fault::PortNotBound);
            },
        };
        if self.registry_cleared {
            return Err(Fault::AlreadyShutDown);
        }
        let mut u: T = match user.take() {
            Some(u) => u,
            None => {
                return Err(Fault::ModuleUnavailable);
            },
        };
        let mut i: usize = 0;
        while i < slots.len()
            invariant
                i <= slots@.len(),
            decreases slots@.len() - i,
        {
            let entry = &slots[i];
            u.import_service(ctx, self.connected_module_name.as_str(), entry.0.as_str(), entry.1);
            i += 1;
        }
        *user = Some(u);
        Ok(())
    }

    /// First teardown phase: disables this link's tracking sweep, so that
    /// dropping a proxy imported over it no longer notifies the peer.
    pub(crate) fn disable_gc(&mut self)
        requires
            old(self).wf(),
            old(self)@.bound,
        ensures
            final(self).wf(),
            final(self)@ == (LinkModel { gc_disabled: true, ..old(self)@ }),
    {
        match &self.rto_context {
            Some(bound) => rpc::rto_disable_garbage_collection(bound),
            None => {
                proof {
                    assert(false);
                }
            },
        }
        self.gc_disabled = true;
    }

    /// Second teardown phase: clears this link's service registry, dropping
    /// every service object exported through it. Callable only once the
    /// link's own tracking sweep is disabled — the precondition enforces the
    /// disable-before-clear ordering structurally.
    pub(crate) fn clear_registry(&mut self)
        requires
            old(self).wf(),
            old(self)@.gc_disabled,
        ensures
            final(self).wf(),
            final(self)@ == (LinkModel { registry_cleared: true, ..old(self)@ }),
    {
        match &mut self.rto_context {
            Some(bound) => rpc::rto_clear_service_registry(bound),
            None => {
                proof {
                    assert(false);
                }
            },
        }
        self.registry_cleared = true;
    }

    /// Tears this one link down: disables its tracking sweep, then clears its
    /// service registry. Faults — changing nothing — on an unbound link and
    /// on a link that was already torn down: teardown happens exactly once.
    pub fn shutdown(&mut self) -> (r: Result<(), Fault>)
        requires
            old(self).wf(),
        ensures
            final(self).wf(),
            !old(self)@.bound ==> {
                &&& r == Err::<(), Fault>(Fault::PortNotBound)
                &&& final(self)@ == old(self)@
            },
            old(self)@.bound && old(self)@.gc_disabled ==> {
                &&& r == Err::<(), Fault>(Fault::AlreadyShutDown)
                &&& final(self)@ == old(self)@
            },
            old(self)@.bound && !old(self)@.gc_disabled ==> {
                &&& r == Ok::<(), Fault>(())
                &&& final(self)@ == (LinkModel {
                    gc_disabled: true,
                    registry_cleared: true,
                    ..old(self)@
                })
            },
    {
        if self.rto_context.is_none() {
            return Err(Fault::PortNotBound);
        }
        if self.gc_disabled {
            return Err(Fault::AlreadyShutDown);
        }
        self.disable_gc();
        self.clear_registry();
        Ok(())
    }
}

} // verus!
