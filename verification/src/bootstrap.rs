use vstd::prelude::*;
use remote_trait_object::raw_exchange::{HandleToExchange, Skeleton};
use remote_trait_object::transport::{TransportRecv, TransportSend};
use std::sync::Arc;
use crate::coordinator_interface::PartialRtoConfig;
use crate::fault::Fault;
use crate::module::UserModule;
use crate::port::{
    export_fault, export_ok, import_fault, import_ok, pool_after_export, LinkModel, ModulePort,
    MAX_SERVICES_PER_LINK,
};
use crate::rpc;

verus! {

/// Ordered, indexable holding area for the service objects a module intends
/// to export: filled once during initialization, drained by the links'
/// `export` calls during bootstrap, and cleared when bootstrap finishes.
///
/// Invariant of the protocol (stated in [`Self::export`]'s contract): each
/// slot gives its handle up at most once; taking an already-empty slot is a
/// protocol fault, not a recoverable condition.
pub struct ExportingServicePool {
    pool: Vec<Option<Skeleton>>,
}

impl View for ExportingServicePool {
    type V = Seq<Option<Skeleton>>;

    closed spec fn view(&self) -> Seq<Option<Skeleton>> {
        self.pool@
    }
}

impl ExportingServicePool {
    /// True when no staged handle remains: every slot was either exported or
    /// the pool was never loaded. This is the state `finish_bootstrap`
    /// demands, so that no staged service is silently dropped.
    pub open spec fn is_drained(&self) -> bool {
        forall|i: int| 0 <= i < self@.len() ==> self@[i] is None
    }

    /// Creates an empty pool.
    pub fn new() -> (r: Self)
        ensures
            r@.len() == 0,
    {
        Self { pool: Vec::new() }
    }

    /// Stages one service per `(constructor name, constructor argument)` pair,
    /// in pair order, by asking the user module's factory for each. Any pool
    /// content from before is replaced.
    pub fn load<T: UserModule>(&mut self, ctors: &[(String, Vec<u8>)], module: &mut T)
        ensures
            final(self)@.len() == ctors@.len(),
            forall|i: int| 0 <= i < ctors@.len() ==> final(self)@[i] is Some,
    {
        let mut fresh: Vec<Option<Skeleton>> = Vec::new();
        let mut i: usize = 0;
        while i < ctors.len()
            invariant
                i <= ctors@.len(),
                fresh@.len() == i,
                forall|j: int| 0 <= j < i ==> fresh@[j] is Some,
            decreases ctors@.len() - i,
        {
            let entry = &ctors[i];
            let service = module.prepare_service_to_export(entry.0.as_str(), entry.1.as_slice());
            fresh.push(Some(service));
            i += 1;
        }
        self.pool = fresh;
    }

    /// Removes and returns the staged handle at `index`.
    ///
    /// Faults — leaving the pool unchanged — if `index` is out of range or if
    /// that slot's handle was already taken: both indicate a coordinator
    /// protocol violation.
    pub fn export(&mut self, index: usize) -> (r: Result<Skeleton, Fault>)
        ensures
            index >= old(self)@.len() ==> {
                &&& r == Err::<Skeleton, Fault>(Fault::IndexOutOfRange)
                &&& final(self)@ == old(self)@
            },
            index < old(self)@.len() && old(self)@[index as int] is None ==> {
                &&& r == Err::<Skeleton, Fault>(Fault::AlreadyExported)
                &&& final(self)@ == old(self)@
            },
            index < old(self)@.len() && old(self)@[index as int] is Some ==> {
                &&& r == Ok::<Skeleton, Fault>(old(self)@[index as int]->0)
                &&& final(self)@ == old(self)@.update(index as int, None)
            },
    {
        if index >= self.pool.len() {
            return Err(Fault::IndexOutOfRange);
        }
        let slot = self.pool.remove(index);
        self.pool.insert(index, None);
        proof {
            assert(self@ =~= old(self)@.update(index as int, None));
        }
        match slot {
            Some(service) => Ok(service),
            None => {
                proof {
                    assert(self@ =~= old(self)@);
                }
                Err(Fault::AlreadyExported)
            },
        }
    }

    /// Drops all slots; the pool becomes empty.
    pub fn clear(&mut self)
        ensures
            final(self)@.len() == 0,
    {
        self.pool.clear();
    }

    /// The number of slots, taken or not.
    pub fn len(&self) -> (n: usize)
        ensures
            n == self@.len(),
    {
        self.pool.len()
    }

    /// Reports whether the slot at `index` still holds its staged handle.
    pub fn is_staged(&self, index: usize) -> (b: bool)
        requires
            index < self@.len(),
        ensures
            b == (self@[index as int] is Some),
    {
        self.pool[index].is_some()
    }

    /// Reports whether every staged handle has been taken.
    pub fn is_empty(&self) -> (r: bool)
        ensures
            r == self.is_drained(),
    {
        let mut i: usize = 0;
        while i < self.pool.len()
            invariant
                i <= self@.len(),
                forall|j: int| 0 <= j < i ==> self@[j] is None,
            decreases self@.len() - i,
        {
            if self.pool[i].is_some() {
                return false;
            }
            i += 1;
        }
        true
    }
}

/// The link states of a sequence of ports, in port order.
pub open spec fn links_of(ports: Seq<ModulePort>) -> Seq<LinkModel> {
    ports.map_values(|p: ModulePort| p@)
}

/// Taking one port out and putting a port back at the same position changes
/// exactly that position's link state.
pub proof fn lemma_links_remove_insert(ports: Seq<ModulePort>, i: int, p: ModulePort)
    requires
        0 <= i < ports.len(),
    ensures
        links_of(ports.remove(i).insert(i, p)) =~= links_of(ports).update(i, p@),
{
}

/// Appending a port appends its link state.
pub proof fn lemma_links_push(ports: Seq<ModulePort>, p: ModulePort)
    ensures
        links_of(ports.push(p)) =~= links_of(ports).push(p@),
{
}

/// Every link with its tracking sweep disabled and nothing else changed: the
/// state teardown's first pass leaves all links in.
pub open spec fn links_with_sweep_disabled(links: Seq<LinkModel>) -> Seq<LinkModel> {
    links.map_values(|link: LinkModel| LinkModel { gc_disabled: true, ..link })
}

/// Every link with its sweep disabled and its registry cleared: the state
/// teardown's second pass leaves all links in.
pub open spec fn links_torn_down(links: Seq<LinkModel>) -> Seq<LinkModel> {
    links.map_values(
        |link: LinkModel| LinkModel { gc_disabled: true, registry_cleared: true, ..link },
    )
}

/// The mathematical state of one module.
#[verifier::ext_equal]
pub ghost struct ModuleModel {
    /// Whether `initialize` has run.
    pub initialized: bool,
    /// Whether `finish_bootstrap` has run.
    pub bootstrap_finished: bool,
    /// Whether `shutdown` has run.
    pub shut_down: bool,
    /// Whether the user module instance exists.
    pub user_present: bool,
    /// The staging pool's slots.
    pub staged: Seq<Option<Skeleton>>,
    /// The links, in creation order.
    pub links: Seq<LinkModel>,
    /// Teardown history: the links as they stood at the moment during
    /// `shutdown` when every tracking sweep had been disabled and no registry
    /// was yet cleared (empty before shutdown). That such a moment exists is
    /// the module-wide teardown order.
    pub quiesced_links: Seq<LinkModel>,
    /// Teardown history: the links' final states when `shutdown` dropped them
    /// (empty before shutdown) — every registry cleared, after its own sweep
    /// was disabled.
    pub torn_links: Seq<LinkModel>,
}

impl ModuleModel {
    /// Well-formedness of a module: the user instance exists exactly between
    /// `initialize` and `shutdown`; bootstrap can only have finished — with a
    /// drained, cleared pool — on an initialized module; shutdown empties the
    /// link map; every link is well-formed and still live (torn down links
    /// never outlive `shutdown`); and every peer name maps to at most one
    /// link.
    pub open spec fn inv(self) -> bool {
        &&& self.user_present <==> (self.initialized && !self.shut_down)
        &&& self.bootstrap_finished ==> self.initialized
        &&& self.shut_down ==> self.initialized
        &&& self.shut_down ==> self.links.len() == 0
        &&& self.bootstrap_finished ==> self.staged.len() == 0
        &&& !self.initialized ==> self.links.len() == 0 && self.staged.len() == 0
        &&& forall|i: int| 0 <= i < self.links.len() ==> (#[trigger] self.links[i]).inv()
        &&& forall|i: int|
            0 <= i < self.links.len() ==> !(#[trigger] self.links[i]).gc_disabled
                && !self.links[i].registry_cleared
        &&& forall|i: int, j: int|
            0 <= i < j < self.links.len() ==> self.links[i].peer != self.links[j].peer
        &&& !self.shut_down ==> self.quiesced_links.len() == 0 && self.torn_links.len() == 0
        &&& forall|i: int|
            0 <= i < self.quiesced_links.len() ==> (#[trigger] self.quiesced_links[i]).gc_disabled
                && !self.quiesced_links[i].registry_cleared
        &&& forall|i: int|
            0 <= i < self.torn_links.len() ==> (#[trigger] self.torn_links[i]).registry_cleared
                && self.torn_links[i].gc_disabled
    }

    /// Whether some link goes to the peer with this name.
    pub open spec fn has_link(self, peer: Seq<char>) -> bool {
        exists|i: int| 0 <= i < self.links.len() && self.links[i].peer == peer
    }

    /// The position of the link to this peer (unique, by `inv`).
    pub open spec fn link_index(self, peer: Seq<char>) -> int {
        choose|i: int| 0 <= i < self.links.len() && self.links[i].peer == peer
    }
}

/// Whether `create_port` succeeds on a module in state `pre`: the module is
/// initialized, bootstrap has not finished, and no link to `peer` exists yet.
pub open spec fn create_port_ok(pre: ModuleModel, peer: Seq<char>) -> bool {
    &&& pre.initialized
    &&& !pre.shut_down
    &&& !pre.bootstrap_finished
    &&& !pre.has_link(peer)
}

/// The fault `create_port` reports when it does not succeed.
pub open spec fn create_port_fault(pre: ModuleModel, peer: Seq<char>) -> Fault {
    if pre.shut_down {
        Fault::AlreadyShutDown
    } else if !pre.initialized {
        Fault::NotInitialized
    } else if pre.bootstrap_finished {
        Fault::BootstrapAlreadyFinished
    } else {
        Fault::DuplicatePeerName
    }
}

/// Whether `finish_bootstrap` succeeds: exactly once, on an initialized
/// module whose staged exports were all claimed.
pub open spec fn finish_bootstrap_ok(pre: ModuleModel) -> bool {
    &&& pre.initialized
    &&& !pre.shut_down
    &&& !pre.bootstrap_finished
    &&& forall|i: int| 0 <= i < pre.staged.len() ==> pre.staged[i] is None
}

/// The fault `finish_bootstrap` reports when it does not succeed.
pub open spec fn finish_bootstrap_fault(pre: ModuleModel) -> Fault {
    if pre.shut_down {
        Fault::AlreadyShutDown
    } else if !pre.initialized {
        Fault::NotInitialized
    } else if pre.bootstrap_finished {
        Fault::BootstrapAlreadyFinished
    } else {
        Fault::StagingNotEmpty
    }
}

/// Whether `shutdown` succeeds: exactly once, on an initialized module all of
/// whose links have a transport bound.
pub open spec fn shutdown_ok(pre: ModuleModel) -> bool {
    &&& pre.initialized
    &&& !pre.shut_down
    &&& forall|i: int| 0 <= i < pre.links.len() ==> (#[trigger] pre.links[i]).bound
}

/// The fault `shutdown` reports when it does not succeed.
pub open spec fn shutdown_fault(pre: ModuleModel) -> Fault {
    if pre.shut_down {
        Fault::AlreadyShutDown
    } else if !pre.initialized {
        Fault::NotInitialized
    } else {
        Fault::PortNotBound
    }
}

/// Law: on every well-formed module, every peer name maps to at most one
/// link, and a name that already has a link can never be given a second one —
/// `create_port` for such a name faults with `DuplicatePeerName` rather than
/// silently accepting the collision.
pub proof fn lemma_peer_names_distinct(m: ModuleModel, peer: Seq<char>)
    requires
        m.inv(),
    ensures
        forall|i: int, j: int| 0 <= i < j < m.links.len() ==> m.links[i].peer != m.links[j].peer,
        m.has_link(peer) ==> !create_port_ok(m, peer),
        m.has_link(peer) && m.initialized && !m.shut_down && !m.bootstrap_finished
            ==> create_port_fault(m, peer) == Fault::DuplicatePeerName,
{
}

/// Law: `finish_bootstrap` faults while any staged service was never
/// exported — one remaining staged handle falsifies its success condition,
/// and the fault it then reports on an otherwise ready module is
/// `StagingNotEmpty`.
pub proof fn lemma_finish_bootstrap_needs_drained(m: ModuleModel, i: int)
    requires
        0 <= i < m.staged.len(),
        m.staged[i] is Some,
    ensures
        !finish_bootstrap_ok(m),
        m.initialized && !m.shut_down && !m.bootstrap_finished ==> finish_bootstrap_fault(m)
            == Fault::StagingNotEmpty,
{
}

/// Law: module teardown is two-phase, in the mandated order. On every
/// well-formed module, the recorded mid-teardown state has every link's sweep
/// disabled while no registry is yet cleared, and every link's recorded final
/// state has its registry cleared only on top of its own disabled sweep.
pub proof fn lemma_teardown_two_phase(m: ModuleModel)
    requires
        m.inv(),
    ensures
        forall|i: int|
            0 <= i < m.quiesced_links.len() ==> (#[trigger] m.quiesced_links[i]).gc_disabled
                && !m.quiesced_links[i].registry_cleared,
        forall|i: int|
            0 <= i < m.torn_links.len() ==> (#[trigger] m.torn_links[i]).registry_cleared
                && m.torn_links[i].gc_disabled,
{
}

/// Law: module teardown happens at most once — once a module has shut down,
/// a second `shutdown` can never succeed and faults with `AlreadyShutDown`.
pub proof fn lemma_shutdown_once(m: ModuleModel)
    requires
        m.shut_down,
    ensures
        !shutdown_ok(m),
        shutdown_fault(m) == Fault::AlreadyShutDown,
{
}

/// Number of worker threads in the shared pool a module is created with.
pub const WORKER_POOL_SIZE: usize = 16;

/// The per-module state machine: owns the user module instance, the staging
/// pool, the shared worker pool, and the links keyed by peer name; drives the
/// lifecycle `initialize` → `create_port`/bootstrap → `finish_bootstrap` →
/// `shutdown`, and fans teardown out to every link in the mandated
/// disable-all-sweeps-first order.
pub struct ModuleContext<T: UserModule> {
    user_context: Option<T>,
    exporting_service_pool: ExportingServicePool,
    ports: Vec<ModulePort>,
    thread_pool: rpc::SharedWorkerPool,
    initialized: bool,
    bootstrap_finished: bool,
    shut_down: bool,
    quiesced_links: Ghost<Seq<LinkModel>>,
    torn_links: Ghost<Seq<LinkModel>>,
}

impl<T: UserModule> View for ModuleContext<T> {
    type V = ModuleModel;

    closed spec fn view(&self) -> ModuleModel {
        ModuleModel {
            initialized: self.initialized,
            bootstrap_finished: self.bootstrap_finished,
            shut_down: self.shut_down,
            user_present: self.user_context is Some,
            staged: self.exporting_service_pool@,
            links: links_of(self.ports@),
            quiesced_links: self.quiesced_links@,
            torn_links: self.torn_links@,
        }
    }
}

impl<T: UserModule> ModuleContext<T> {
    /// Well-formedness of the module's concrete state.
    pub open spec fn wf(&self) -> bool {
        self@.inv()
    }

    /// Creates a fresh, uninitialized module context with its own bounded
    /// worker pool.
    pub fn new() -> (r: Self)
        ensures
            r.wf(),
            !r@.initialized,
            !r@.bootstrap_finished,
            !r@.shut_down,
            !r@.user_present,
            r@.staged.len() == 0,
            r@.links.len() == 0,
            r@.quiesced_links.len() == 0,
            r@.torn_links.len() == 0,
    {
        Self {
            user_context: None,
            exporting_service_pool: ExportingServicePool::new(),
            ports: Vec::new(),
            thread_pool: Arc::new(rpc::new_pool_lock(rpc::new_thread_pool(WORKER_POOL_SIZE))),
            initialized: false,
            bootstrap_finished: false,
            shut_down: false,
            quiesced_links: Ghost(Seq::empty()),
            torn_links: Ghost(Seq::empty()),
        }
    }

    /// Initializes the module exactly once: constructs the user instance from
    /// the opaque argument bytes and stages one service per export
    /// descriptor, in descriptor order. Faults — changing nothing — on a
    /// module that was already initialized.
    pub fn initialize(&mut self, arg: &[u8], exports: &[(String, Vec<u8>)]) -> (r: Result<
        (),
        Fault,
    >)
        requires
            old(self).wf(),
        ensures
            final(self).wf(),
            old(self)@.initialized ==> {
                &&& r == Err::<(), Fault>(Fault::AlreadyInitialized)
                &&& final(self)@ == old(self)@
            },
            !old(self)@.initialized ==> {
                &&& r == Ok::<(), Fault>(())
                &&& final(self)@.initialized
                &&& final(self)@.user_present
                &&& !final(self)@.bootstrap_finished
                &&& !final(self)@.shut_down
                &&& final(self)@.staged.len() == exports@.len()
                &&& forall|i: int| 0 <= i < exports@.len() ==> final(self)@.staged[i] is Some
                &&& final(self)@.links == old(self)@.links
            },
    {
        if self.initialized {
            return Err(Fault::AlreadyInitialized);
        }
        let mut module = T::new(arg);
        self.exporting_service_pool.load(exports, &mut module);
        self.user_context = Some(module);
        self.initialized = true;
        Ok(())
    }

    /// Finds the link to the named peer.
    #[verifier::loop_isolation(false)]
    fn find_port(&self, name: &String) -> (r: Option<usize>)
        requires
            self.wf(),
        ensures
            r is Some ==> {
                &&& 0 <= r->0 < self@.links.len()
                &&& self@.links[r->0 as int].peer == name@
                &&& self@.has_link(name@)
                &&& self@.link_index(name@) == r->0
            },
            r is None ==> !self@.has_link(name@),
    {
        let mut i: usize = 0;
        while i < self.ports.len()
            invariant
                i <= self@.links.len(),
                forall|j: int| 0 <= j < i ==> self@.links[j].peer != name@,
            decreases self@.links.len() - i,
        {
            if *self.ports[i].peer_name() == *name {
                proof {
                    assert(self@.links[i as int].peer == name@);
                    let li = self@.link_index(name@);
                    assert(0 <= li < self@.links.len() && self@.links[li].peer == name@);
                    if li < i as int {
                        assert(self@.links[li].peer != self@.links[i as int].peer);
                    } else if li > i as int {
                        assert(self@.links[i as int].peer != self@.links[li].peer);
                    }
                }
                return Some(i);
            }
            i += 1;
        }
        None
    }

    /// Allocates a link to the named peer and registers it: allowed only
    /// between `initialize` and `finish_bootstrap`, and only for a name that
    /// has no link yet — a duplicate peer name is a fault, never silently
    /// accepted. Returns the new link's position.
    #[verifier::loop_isolation(false)]
    pub fn create_port(&mut self, name: &str) -> (r: Result<usize, Fault>)
        requires
            old(self).wf(),
        ensures
            final(self).wf(),
            create_port_ok(old(self)@, name@) ==> {
                &&& r == Ok::<usize, Fault>(old(self)@.links.len() as usize)
                &&& final(self)@ == (ModuleModel {
                    links: old(self)@.links.push(LinkModel {
                        peer: name@,
                        bound: false,
                        gc_disabled: false,
                        registry_cleared: false,
                        exports_done: 0,
                        capacity: 0,
                    }),
                    ..old(self)@
                })
            },
            !create_port_ok(old(self)@, name@) ==> {
                &&& r == Err::<usize, Fault>(create_port_fault(old(self)@, name@))
                &&& final(self)@ == old(self)@
            },
    {
        if self.shut_down {
            return Err(Fault::AlreadyShutDown);
        }
        if !self.initialized {
            return Err(Fault::NotInitialized);
        }
        if self.bootstrap_finished {
            return Err(Fault::BootstrapAlreadyFinished);
        }
        let owned = name.to_owned();
        if self.find_port(&owned).is_some() {
            return Err(Fault::DuplicatePeerName);
        }
        let index = self.ports.len();
        let port = ModulePort::new(owned);
        proof {
            lemma_links_push(self.ports@, port);
        }
        self.ports.push(port);
        Ok(index)
    }

    /// Ends the bootstrap phase exactly once: faults — changing nothing — if
    /// bootstrap already finished or if any staged service was never claimed
    /// by an export, so that none is silently dropped. Clears the pool and
    /// freezes port creation.
    pub fn finish_bootstrap(&mut self) -> (r: Result<(), Fault>)
        requires
            old(self).wf(),
        ensures
            final(self).wf(),
            finish_bootstrap_ok(old(self)@) ==> {
                &&& r == Ok::<(), Fault>(())
                &&& final(self)@ == (ModuleModel {
                    bootstrap_finished: true,
                    staged: Seq::empty(),
                    ..old(self)@
                })
            },
            !finish_bootstrap_ok(old(self)@) ==> {
                &&& r == Err::<(), Fault>(finish_bootstrap_fault(old(self)@))
                &&& final(self)@ == old(self)@
            },
    {
        if self.shut_down {
            return Err(Fault::AlreadyShutDown);
        }
        if !self.initialized {
            return Err(Fault::NotInitialized);
        }
        if self.bootstrap_finished {
            return Err(Fault::BootstrapAlreadyFinished);
        }
        if !self.exporting_service_pool.is_empty() {
            return Err(Fault::StagingNotEmpty);
        }
        self.exporting_service_pool.clear();
        self.bootstrap_finished = true;
        proof {
            assert(self.exporting_service_pool@ =~= Seq::<Option<Skeleton>>::empty());
        }
        Ok(())
    }

    /// Opaque pass-through to the user module, for operational introspection;
    /// no protocol meaning. Faults once the module is shut down or before it
    /// is initialized.
    pub fn debug(&mut self, arg: &[u8]) -> (r: Result<Vec<u8>, Fault>)
        requires
            old(self).wf(),
        ensures
            final(self).wf(),
            final(self)@ == old(self)@,
            old(self)@.user_present ==> r is Ok,
            !old(self)@.user_present ==> r == Err::<Vec<u8>, Fault>(
                if old(self)@.shut_down {
                    Fault::AlreadyShutDown
                } else {
                    Fault::NotInitialized
                },
            ),
    {
        if self.shut_down {
            return Err(Fault::AlreadyShutDown);
        }
        let user = match &mut self.user_context {
            Some(u) => u,
            None => {
                return Err(Fault::NotInitialized);
            },
        };
        Ok(user.debug(arg))
    }

    /// Binds a transport to the link toward the named peer, constructing its
    /// RPC context over the module's shared worker pool. Faults — changing
    /// nothing — if no such link exists or if the link is already bound.
    pub fn port_initialize<S, R>(
        &mut self,
        name: &str,
        rto_config: PartialRtoConfig,
        transport_send: S,
        transport_recv: R,
    ) -> (r: Result<(), Fault>) where S: TransportSend + 'static, R: TransportRecv + 'static
        requires
            old(self).wf(),
        ensures
            final(self).wf(),
            !old(self)@.has_link(name@) ==> {
                &&& r == Err::<(), Fault>(Fault::NoSuchPort)
                &&& final(self)@ == old(self)@
            },
            old(self)@.has_link(name@) && old(self)@.links[old(self)@.link_index(name@)].bound
                ==> {
                &&& r == Err::<(), Fault>(Fault::PortAlreadyBound)
                &&& final(self)@ == old(self)@
            },
            old(self)@.has_link(name@) && !old(self)@.links[old(self)@.link_index(name@)].bound
                ==> {
                &&& r == Ok::<(), Fault>(())
                &&& final(self)@ == (ModuleModel {
                    links: old(self)@.links.update(
                        old(self)@.link_index(name@),
                        LinkModel {
                            bound: true,
                            exports_done: 0,
                            capacity: MAX_SERVICES_PER_LINK as nat,
                            ..old(self)@.links[old(self)@.link_index(name@)]
                        },
                    ),
                    ..old(self)@
                })
            },
    {
        let owned = name.to_owned();
        let index = match self.find_port(&owned) {
            Some(i) => i,
            None => {
                return Err(Fault::NoSuchPort);
            },
        };
        let mut port = self.ports.remove(index);
        let outcome = port.initialize(rto_config, transport_send, transport_recv, &self.thread_pool);
        proof {
            lemma_links_remove_insert(old(self).ports@, index as int, port);
        }
        self.ports.insert(index, port);
        match outcome {
            Ok(()) => {
                Ok(())
            },
            Err(f) => {
                proof {
                    assert(links_of(self.ports@) =~= links_of(old(self).ports@));
                    assert(self@ =~= old(self)@);
                }
                Err(f)
            },
        }
    }

    /// Takes the staged handles at `ids` out of the module's staging pool and
    /// registers them into the named link's RPC context, returning the
    /// capability handles in the order of `ids`. Faults — changing nothing —
    /// if no such link exists, and on every fault of the link's `export`.
    pub fn port_export(&mut self, name: &str, ids: &[usize]) -> (r: Result<
        Vec<HandleToExchange>,
        Fault,
    >)
        requires
            old(self).wf(),
        ensures
            final(self).wf(),
            !old(self)@.has_link(name@) ==> {
                &&& r == Err::<Vec<HandleToExchange>, Fault>(Fault::NoSuchPort)
                &&& final(self)@ == old(self)@
            },
            old(self)@.has_link(name@) && export_ok(
                old(self)@.links[old(self)@.link_index(name@)],
                old(self)@.staged,
                ids@,
            ) ==> {
                &&& r is Ok
                &&& r->Ok_0@.len() == ids@.len()
                &&& final(self)@ == (ModuleModel {
                    staged: pool_after_export(old(self)@.staged, ids@),
                    links: old(self)@.links.update(
                        old(self)@.link_index(name@),
                        LinkModel {
                            exports_done: old(self)@.links[old(self)@.link_index(
                                name@,
                            )].exports_done + ids@.len(),
                            ..old(self)@.links[old(self)@.link_index(name@)]
                        },
                    ),
                    ..old(self)@
                })
            },
            old(self)@.has_link(name@) && !export_ok(
                old(self)@.links[old(self)@.link_index(name@)],
                old(self)@.staged,
                ids@,
            ) ==> {
                &&& r == Err::<Vec<HandleToExchange>, Fault>(export_fault(
                    old(self)@.links[old(self)@.link_index(name@)],
                    old(self)@.staged,
                    ids@,
                ))
                &&& final(self)@ == old(self)@
            },
    {
        let owned = name.to_owned();
        let index = match self.find_port(&owned) {
            Some(i) => i,
            None => {
                return Err(Fault::NoSuchPort);
            },
        };
        let mut port = self.ports.remove(index);
        let outcome = port.export(&mut self.exporting_service_pool, ids);
        proof {
            lemma_links_remove_insert(old(self).ports@, index as int, port);
        }
        self.ports.insert(index, port);
        match outcome {
            Ok(handles) => {
                Ok(handles)
            },
            Err(f) => {
                proof {
                    assert(links_of(self.ports@) =~= links_of(old(self).ports@));
                    assert(self@ =~= old(self)@);
                }
                Err(f)
            },
        }
    }

    /// Hands the named link's imported `(slot name, capability handle)` pairs
    /// to the user module's import callback, in slot order. Faults — changing
    /// nothing — if no such link exists, and on every fault of the link's
    /// `import`.
    pub fn port_import(&mut self, name: &str, slots: &[(String, HandleToExchange)]) -> (r: Result<
        (),
        Fault,
    >)
        requires
            old(self).wf(),
        ensures
            final(self).wf(),
            final(self)@ == old(self)@,
            !old(self)@.has_link(name@) ==> r == Err::<(), Fault>(Fault::NoSuchPort),
            old(self)@.has_link(name@) && import_ok(
                old(self)@.links[old(self)@.link_index(name@)],
                old(self)@.user_present,
            ) ==> r == Ok::<(), Fault>(()),
            old(self)@.has_link(name@) && !import_ok(
                old(self)@.links[old(self)@.link_index(name@)],
                old(self)@.user_present,
            ) ==> r == Err::<(), Fault>(import_fault(
                old(self)@.links[old(self)@.link_index(name@)],
                old(self)@.user_present,
            )),
    {
        let owned = name.to_owned();
        let index = match self.find_port(&owned) {
            Some(i) => i,
            None => {
                return Err(Fault::NoSuchPort);
            },
        };
        let outcome = self.ports[index].import(&mut self.user_context, slots);
        outcome
    }

    /// Tears the whole module down exactly once, in the mandated order: first
    /// every link's tracking sweep is disabled; only after all of them are
    /// disabled is any link's registry cleared, one by one, so that every
    /// drop a clearing triggers is purely local. The user instance is then
    /// dropped and the link map emptied. Faults — changing nothing — on a
    /// second shutdown, before `initialize`, and when some link never had a
    /// transport bound.
    #[verifier::loop_isolation(false)]
    pub fn shutdown(&mut self) -> (r: Result<(), Fault>)
        requires
            old(self).wf(),
        ensures
            final(self).wf(),
            shutdown_ok(old(self)@) ==> {
                &&& r == Ok::<(), Fault>(())
                &&& final(self)@ == (ModuleModel {
                    shut_down: true,
                    user_present: false,
                    links: Seq::empty(),
                    quiesced_links: links_with_sweep_disabled(old(self)@.links),
                    torn_links: links_torn_down(old(self)@.links),
                    ..old(self)@
                })
            },
            !shutdown_ok(old(self)@) ==> {
                &&& r == Err::<(), Fault>(shutdown_fault(old(self)@))
                &&& final(self)@ == old(self)@
            },
    {
        if self.shut_down {
            return Err(Fault::AlreadyShutDown);
        }
        if !self.initialized {
            return Err(Fault::NotInitialized);
        }
        let n = self.ports.len();
        let mut i: usize = 0;
        while i < n
            invariant
                i <= n,
                self@ == old(self)@,
                forall|j: int| 0 <= j < i ==> (#[trigger] self@.links[j]).bound,
            decreases n - i,
        {
            if !self.ports[i].is_bound() {
                proof {
                    assert(self@.links[i as int] == self.ports@[i as int]@);
                    assert(!old(self)@.links[i as int].bound);
                }
                return Err(Fault::PortNotBound);
            }
            proof {
                assert(self@.links[i as int] == self.ports@[i as int]@);
            }
            i += 1;
        }

        // First pass: disable every link's tracking sweep. No registry may be
        // cleared until this pass has covered every link.
        let mut i: usize = 0;
        while i < n
            invariant
                i <= n,
                self.ports@.len() == n,
                self@.staged == old(self)@.staged,
                self@.initialized == old(self)@.initialized,
                self@.bootstrap_finished == old(self)@.bootstrap_finished,
                self@.shut_down == old(self)@.shut_down,
                self@.user_present == old(self)@.user_present,
                self@.quiesced_links == old(self)@.quiesced_links,
                self@.torn_links == old(self)@.torn_links,
                self@.links.len() == n,
                forall|j: int|
                    0 <= j < i ==> self@.links[j] == (LinkModel {
                        gc_disabled: true,
                        ..old(self)@.links[j]
                    }),
                forall|j: int| i <= j < n ==> self@.links[j] == old(self)@.links[j],
            decreases n - i,
        {
            let ghost before = self.ports@;
            let mut port = self.ports.remove(i);
            proof {
                assert(port@ == links_of(before)[i as int]);
                assert(port@ == old(self)@.links[i as int]);
                assert(port@.inv());
                assert(port@.bound);
            }
            port.disable_gc();
            proof {
                lemma_links_remove_insert(before, i as int, port);
            }
            self.ports.insert(i, port);
            i += 1;
        }

        // Every sweep is now off and no registry cleared yet: record that
        // module-wide quiescent moment — it is the two-phase order itself.
        proof {
            assert(links_of(self.ports@) =~= links_with_sweep_disabled(old(self)@.links));
        }
        self.quiesced_links = Ghost(links_of(self.ports@));

        // Second pass: every sweep is now off, so clearing each registry can
        // only trigger purely local drops.
        let mut i: usize = 0;
        while i < n
            invariant
                i <= n,
                self.ports@.len() == n,
                self@.staged == old(self)@.staged,
                self@.initialized == old(self)@.initialized,
                self@.bootstrap_finished == old(self)@.bootstrap_finished,
                self@.shut_down == old(self)@.shut_down,
                self@.user_present == old(self)@.user_present,
                self@.quiesced_links == links_with_sweep_disabled(old(self)@.links),
                self@.torn_links == old(self)@.torn_links,
                self@.links.len() == n,
                forall|j: int|
                    0 <= j < i ==> self@.links[j] == (LinkModel {
                        gc_disabled: true,
                        registry_cleared: true,
                        ..old(self)@.links[j]
                    }),
                forall|j: int|
                    i <= j < n ==> self@.links[j] == (LinkModel {
                        gc_disabled: true,
                        ..old(self)@.links[j]
                    }),
            decreases n - i,
        {
            let ghost before = self.ports@;
            let mut port = self.ports.remove(i);
            proof {
                assert(port@ == links_of(before)[i as int]);
                assert(port@ == (LinkModel { gc_disabled: true, ..old(self)@.links[i as int] }));
                assert(old(self)@.links[i as int].inv());
                assert(port@.inv());
            }
            port.clear_registry();
            proof {
                lemma_links_remove_insert(before, i as int, port);
            }
            self.ports.insert(i, port);
            i += 1;
        }

        proof {
            assert(links_of(self.ports@) =~= links_torn_down(old(self)@.links));
        }
        self.torn_links = Ghost(links_of(self.ports@));
        self.user_context = None;
        self.ports.clear();
        self.shut_down = true;
        proof {
            assert(links_of(self.ports@) =~= Seq::<LinkModel>::empty());
            assert(self@ =~= (ModuleModel {
                shut_down: true,
                user_present: false,
                links: Seq::empty(),
                quiesced_links: links_with_sweep_disabled(old(self)@.links),
                torn_links: links_torn_down(old(self)@.links),
                ..old(self)@
            }));
        }
        Ok(())
    }
}

/// Constructs an initialized module context around an existing user module
/// instance, staging one service per export descriptor — without any RPC
/// connection of the module's own. Useful to realize linkability without any
/// execution behind it.
pub fn create_foundry_module<T: UserModule>(module: T, exports: &[(String, Vec<u8>)]) -> (r:
    ModuleContext<T>)
    ensures
        r.wf(),
        r@.initialized,
        r@.user_present,
        !r@.bootstrap_finished,
        !r@.shut_down,
        r@.links.len() == 0,
        r@.staged.len() == exports@.len(),
        forall|i: int| 0 <= i < exports@.len() ==> r@.staged[i] is Some,
{
    let mut context = ModuleContext::<T>::new();
    let mut module = module;
    context.exporting_service_pool.load(exports, &mut module);
    context.user_context = Some(module);
    context.initialized = true;
    context
}

} // verus!
