//! End-to-end tests over the real RPC layer: two modules trade capability
//! handles over in-process channel transports, call the resulting proxies,
//! and tear everything down; a fully pairwise-linked set of modules does the
//! same; and the faults that need a bound link are exercised.

use crossbeam::channel::{unbounded, Receiver, RecvTimeoutError, Sender};
use module_rt::bootstrap::ModuleContext;
use module_rt::coordinator_interface::PartialRtoConfig;
use module_rt::fault::Fault;
use module_rt::module::UserModule;
use module_rt::port::ModulePort;
use module_rt::rpc::SharedWorkerPool;
use remote_trait_object::macro_env::{create_skeleton, DefaultSerdeFormat, Handle, MethodId};
use remote_trait_object::macro_env::Port as RtoPort;
use remote_trait_object::raw_exchange::{import_service_from_handle, HandleToExchange, ImportProxy, Skeleton};
use remote_trait_object::transport::{Terminate, TransportError, TransportRecv, TransportSend};
use remote_trait_object::{Context as RtoContext, Service};
use std::sync::atomic::{AtomicBool, Ordering};
use std::sync::{Arc, Weak};
use std::time::Duration;

#[derive(Debug)]
struct ChanSend(Sender<Vec<u8>>);

impl TransportSend for ChanSend {
    fn send(&self, data: &[u8], _timeout: Option<Duration>) -> Result<(), TransportError> {
        self.0.send(data.to_vec()).map_err(|_| TransportError::Custom)
    }

    fn create_terminator(&self) -> Box<dyn Terminate> {
        Box::new(NoopTerminate)
    }
}

struct ChanRecv {
    rx: Receiver<Vec<u8>>,
    stop: Arc<AtomicBool>,
}

impl TransportRecv for ChanRecv {
    fn recv(&self, _timeout: Option<Duration>) -> Result<Vec<u8>, TransportError> {
        loop {
            if self.stop.load(Ordering::SeqCst) {
                return Err(TransportError::Termination);
            }
            match self.rx.recv_timeout(Duration::from_millis(20)) {
                Ok(data) => return Ok(data),
                Err(RecvTimeoutError::Timeout) => continue,
                Err(RecvTimeoutError::Disconnected) => return Err(TransportError::Custom),
            }
        }
    }

    fn create_terminator(&self) -> Box<dyn Terminate> {
        Box::new(FlagTerminate(Arc::clone(&self.stop)))
    }
}

struct FlagTerminate(Arc<AtomicBool>);

impl Terminate for FlagTerminate {
    fn terminate(&self) {
        self.0.store(true, Ordering::SeqCst);
    }
}

struct NoopTerminate;

impl Terminate for NoopTerminate {
    fn terminate(&self) {}
}

/// One duplex in-process transport: returns the two ends.
fn duplex() -> ((ChanSend, ChanRecv), (ChanSend, ChanRecv)) {
    let (tx_ab, rx_ab) = unbounded();
    let (tx_ba, rx_ba) = unbounded();
    let end_a = (
        ChanSend(tx_ab),
        ChanRecv { rx: rx_ba, stop: Arc::new(AtomicBool::new(false)) },
    );
    let end_b = (
        ChanSend(tx_ba),
        ChanRecv { rx: rx_ab, stop: Arc::new(AtomicBool::new(false)) },
    );
    (end_a, end_b)
}

fn config(name: &str) -> PartialRtoConfig {
    PartialRtoConfig {
        name: name.to_owned(),
        call_slots: 128,
        call_timeout: Some(Duration::from_millis(5000)),
    }
}

/// Marker service trait; only anchors the proxy registration.
trait HelloMarker: Service {}

struct HelloProxy {
    handle: Handle,
}

impl ImportProxy<dyn HelloMarker> for HelloProxy {
    fn import_proxy(port: Weak<dyn RtoPort>, handle: HandleToExchange) -> Self {
        HelloProxy { handle: Handle::new(handle, port) }
    }
}

const METHOD_HELLO: MethodId = 1;
const METHOD_HI: MethodId = 2;

impl HelloProxy {
    fn hello(&self) -> i32 {
        self.handle.call::<DefaultSerdeFormat, (), i32>(METHOD_HELLO, &())
    }

    fn hi(&self) -> String {
        self.handle.call::<DefaultSerdeFormat, (), String>(METHOD_HI, &())
    }
}

/// The user module of the scenarios: each staged service answers `hello` with
/// the constructor argument and `hi` with the module's own greeting; each
/// imported handle becomes a proxy remembered together with the value the
/// slot name announces.
struct HelloModule {
    my_greeting: String,
    others_greeting: String,
    hello_list: Vec<(HelloProxy, i32)>,
}

impl UserModule for HelloModule {
    fn new(arg: &[u8]) -> Self {
        let (my_greeting, others_greeting): (String, String) = serde_cbor::from_slice(arg).unwrap();
        Self { my_greeting, others_greeting, hello_list: Vec::new() }
    }

    fn prepare_service_to_export(&mut self, ctor_name: &str, ctor_arg: &[u8]) -> Skeleton {
        assert_eq!(ctor_name, "Constructor");
        let value: i32 = serde_cbor::from_slice(ctor_arg).unwrap();
        let greeting = self.my_greeting.clone();
        create_skeleton(Arc::new(move |method: MethodId, _args: &[u8]| match method {
            METHOD_HELLO => serde_cbor::to_vec(&value).unwrap(),
            METHOD_HI => serde_cbor::to_vec(&greeting).unwrap(),
            _ => panic!("unexpected method id {}", method),
        }))
    }

    fn import_service(
        &mut self,
        rto_context: &RtoContext,
        _exporter_module: &str,
        name: &str,
        handle: HandleToExchange,
    ) {
        let proxy: HelloProxy = import_service_from_handle(rto_context, handle);
        self.hello_list.push((proxy, name.parse().unwrap()));
    }

    fn debug(&mut self, _arg: &[u8]) -> Vec<u8> {
        for (proxy, value) in &self.hello_list {
            assert_eq!(proxy.hello(), *value);
            assert_eq!(proxy.hi(), self.others_greeting);
        }
        Vec::new()
    }
}

fn hello_exports(values: &[i32]) -> Vec<(String, Vec<u8>)> {
    values
        .iter()
        .map(|v| ("Constructor".to_owned(), serde_cbor::to_vec(v).unwrap()))
        .collect()
}

fn slot_pairs(values: &[i32], handles: Vec<HandleToExchange>) -> Vec<(String, HandleToExchange)> {
    values
        .iter()
        .map(|v| v.to_string())
        .zip(handles.into_iter())
        .collect()
}

#[test]
fn two_modules_ten_services_round_trip() {
    let n = 10;
    let values: Vec<i32> = (0..n).collect();
    let ids: Vec<usize> = (0..n as usize).collect();

    let mut module1: ModuleContext<HelloModule> = ModuleContext::new();
    let mut module2: ModuleContext<HelloModule> = ModuleContext::new();
    module1
        .initialize(
            &serde_cbor::to_vec(&("Annyeong", "Konnichiwa")).unwrap(),
            &hello_exports(&values),
        )
        .unwrap();
    module2
        .initialize(
            &serde_cbor::to_vec(&("Konnichiwa", "Annyeong")).unwrap(),
            &hello_exports(&values),
        )
        .unwrap();

    module1.create_port("module2").unwrap();
    module2.create_port("module1").unwrap();

    let (end1, end2) = duplex();
    module1.port_initialize("module2", config("rto1"), end1.0, end1.1).unwrap();
    module2.port_initialize("module1", config("rto2"), end2.0, end2.1).unwrap();

    let handles_1_to_2 = module1.port_export("module2", &ids).unwrap();
    let handles_2_to_1 = module2.port_export("module1", &ids).unwrap();
    assert_eq!(handles_1_to_2.len(), n as usize);
    assert_eq!(handles_2_to_1.len(), n as usize);

    module1.port_import("module2", &slot_pairs(&values, handles_2_to_1)).unwrap();
    module2.port_import("module1", &slot_pairs(&values, handles_1_to_2)).unwrap();

    module1.finish_bootstrap().unwrap();
    module2.finish_bootstrap().unwrap();

    // every proxy call must reach the originally registered object
    assert_eq!(module1.debug(&[]).unwrap(), Vec::<u8>::new());
    assert_eq!(module2.debug(&[]).unwrap(), Vec::<u8>::new());

    module1.shutdown().unwrap();
    module2.shutdown().unwrap();
    assert_eq!(module1.shutdown().unwrap_err(), Fault::AlreadyShutDown);
    assert_eq!(module2.shutdown().unwrap_err(), Fault::AlreadyShutDown);
}

#[test]
fn port_initialize_twice_faults() {
    let mut module: ModuleContext<HelloModule> = ModuleContext::new();
    module
        .initialize(&serde_cbor::to_vec(&("a", "b")).unwrap(), &[])
        .unwrap();
    module.create_port("peer").unwrap();
    let (end1, end2) = duplex();
    module.port_initialize("peer", config("rto"), end1.0, end1.1).unwrap();
    assert_eq!(
        module.port_initialize("peer", config("rto"), end2.0, end2.1).unwrap_err(),
        Fault::PortAlreadyBound
    );
    module.finish_bootstrap().unwrap();
    module.shutdown().unwrap();
}

#[test]
fn export_faults_on_bound_port() {
    let n = 3;
    let values: Vec<i32> = (0..n).collect();
    let mut module: ModuleContext<HelloModule> = ModuleContext::new();
    module
        .initialize(&serde_cbor::to_vec(&("a", "b")).unwrap(), &hello_exports(&values))
        .unwrap();
    module.create_port("peer").unwrap();
    let (end1, _end2) = duplex();
    module.port_initialize("peer", config("rto"), end1.0, end1.1).unwrap();

    // out of range
    assert_eq!(module.port_export("peer", &[3]).unwrap_err(), Fault::IndexOutOfRange);
    // a repeated index inside one request
    assert_eq!(module.port_export("peer", &[0, 0]).unwrap_err(), Fault::AlreadyExported);
    // a failed request must consume nothing: all three still export fine
    let handles = module.port_export("peer", &[0, 1, 2]).unwrap();
    assert_eq!(handles.len(), 3);
    // the same staged index twice faults on the second attempt
    assert_eq!(module.port_export("peer", &[1]).unwrap_err(), Fault::AlreadyExported);
    // more handles than the link's registry can ever take
    let too_many: Vec<usize> = vec![0; 65535];
    assert_eq!(module.port_export("peer", &too_many).unwrap_err(), Fault::RegistryFull);

    module.finish_bootstrap().unwrap();
    module.shutdown().unwrap();
}

#[test]
fn standalone_port_shutdown_and_import_faults() {
    let pool: SharedWorkerPool =
        Arc::new(parking_lot::Mutex::new(threadpool::ThreadPool::new(2)));

    let mut port = ModulePort::new("peer".to_owned());
    assert_eq!(port.shutdown().unwrap_err(), Fault::PortNotBound);

    let (end1, _end2) = duplex();
    port.initialize(config("rto"), end1.0, end1.1, &pool).unwrap();

    // the user module is gone: upgrade-or-fail rejects the import
    let mut absent: Option<HelloModule> = None;
    assert_eq!(
        port.import(&mut absent, &[("0".to_owned(), HandleToExchange::create_null())]).unwrap_err(),
        Fault::ModuleUnavailable
    );

    port.shutdown().unwrap();
    // a torn-down link cannot be torn down again, nor used
    assert_eq!(port.shutdown().unwrap_err(), Fault::AlreadyShutDown);
    let mut pool2 = module_rt::bootstrap::ExportingServicePool::new();
    assert_eq!(port.export(&mut pool2, &[]).unwrap_err(), Fault::AlreadyShutDown);
    assert_eq!(port.import(&mut absent, &[]).unwrap_err(), Fault::AlreadyShutDown);
}

#[test]
fn four_modules_pairwise_linked() {
    let n: usize = 4;
    let greeting = serde_cbor::to_vec(&("Hola", "Hola")).unwrap();

    let mut modules: Vec<ModuleContext<HelloModule>> = Vec::new();
    for m in 0..n {
        let values: Vec<i32> = (0..n - 1).map(|k| (m * 10 + k) as i32).collect();
        let mut module: ModuleContext<HelloModule> = ModuleContext::new();
        module.initialize(&greeting, &hello_exports(&values)).unwrap();
        modules.push(module);
    }

    for i in 0..n {
        for j in (i + 1)..n {
            let port_name = format!("link_{}_{}", i, j);
            modules[i].create_port(&port_name).unwrap();
            modules[j].create_port(&port_name).unwrap();

            let (end_i, end_j) = duplex();
            modules[i]
                .port_initialize(&port_name, config(&port_name), end_i.0, end_i.1)
                .unwrap();
            modules[j]
                .port_initialize(&port_name, config(&port_name), end_j.0, end_j.1)
                .unwrap();

            // module i staged one service per peer, skipping itself
            let index_at_i = j - 1;
            let index_at_j = i;
            let handles_i_to_j = modules[i].port_export(&port_name, &[index_at_i]).unwrap();
            let handles_j_to_i = modules[j].port_export(&port_name, &[index_at_j]).unwrap();

            let value_from_i = (i * 10 + index_at_i) as i32;
            let value_from_j = (j * 10 + index_at_j) as i32;
            modules[i]
                .port_import(&port_name, &[(value_from_j.to_string(), handles_j_to_i[0])])
                .unwrap();
            modules[j]
                .port_import(&port_name, &[(value_from_i.to_string(), handles_i_to_j[0])])
                .unwrap();
        }
    }

    for module in modules.iter_mut() {
        module.finish_bootstrap().unwrap();
    }

    // each module observes its full, correctly wired peer graph
    for module in modules.iter_mut() {
        assert_eq!(module.debug(&[]).unwrap(), Vec::<u8>::new());
    }

    for module in modules.iter_mut() {
        module.shutdown().unwrap();
    }
    for module in modules.iter_mut() {
        assert_eq!(module.shutdown().unwrap_err(), Fault::AlreadyShutDown);
    }
}
