//! State-machine tests for the staging pool and the module lifecycle that
//! need no transport: faults for double initialization, duplicate peer names,
//! double exports, unfinished staging, and repeated shutdown.

use module_rt::bootstrap::{create_foundry_module, ExportingServicePool, ModuleContext};
use module_rt::fault::Fault;
use module_rt::module::UserModule;
use remote_trait_object::macro_env::{create_skeleton, MethodId};
use remote_trait_object::raw_exchange::{HandleToExchange, Skeleton};
use remote_trait_object::Context as RtoContext;
use std::sync::Arc;

/// A minimal user module: every staged service echoes its constructor
/// argument bytes; imports are only counted.
struct MiniModule {
    arg: Vec<u8>,
    imported: usize,
}

impl UserModule for MiniModule {
    fn new(arg: &[u8]) -> Self {
        Self {
            arg: arg.to_vec(),
            imported: 0,
        }
    }

    fn prepare_service_to_export(&mut self, _ctor_name: &str, ctor_arg: &[u8]) -> Skeleton {
        let payload = ctor_arg.to_vec();
        create_skeleton(Arc::new(move |_method: MethodId, _args: &[u8]| payload.clone()))
    }

    fn import_service(
        &mut self,
        _rto_context: &RtoContext,
        _exporter_module: &str,
        _name: &str,
        _handle: HandleToExchange,
    ) {
        self.imported += 1;
    }

    fn debug(&mut self, arg: &[u8]) -> Vec<u8> {
        let mut out = self.arg.clone();
        out.extend_from_slice(arg);
        out
    }
}

fn loaded_pool(n: usize) -> ExportingServicePool {
    let mut module = MiniModule::new(&[]);
    let ctors: Vec<(String, Vec<u8>)> =
        (0..n).map(|i| ("Constructor".to_owned(), vec![i as u8])).collect();
    let mut pool = ExportingServicePool::new();
    pool.load(&ctors, &mut module);
    pool
}

#[test]
fn pool_load_sets_length_and_export_drains() {
    let mut pool = loaded_pool(3);
    assert_eq!(pool.len(), 3);
    assert!(!pool.is_empty());
    assert!(pool.export(0).is_ok());
    assert!(pool.export(2).is_ok());
    assert!(pool.export(1).is_ok());
    assert!(pool.is_empty());
    assert_eq!(pool.len(), 3);
}

#[test]
fn pool_export_same_index_twice_faults() {
    let mut pool = loaded_pool(2);
    assert!(pool.export(1).is_ok());
    assert_eq!(pool.export(1).unwrap_err(), Fault::AlreadyExported);
}

#[test]
fn pool_export_out_of_range_faults() {
    let mut pool = loaded_pool(2);
    assert_eq!(pool.export(2).unwrap_err(), Fault::IndexOutOfRange);
    let mut empty = ExportingServicePool::new();
    assert_eq!(empty.export(0).unwrap_err(), Fault::IndexOutOfRange);
    assert!(empty.is_empty());
}

#[test]
fn pool_clear_empties() {
    let mut pool = loaded_pool(4);
    pool.clear();
    assert_eq!(pool.len(), 0);
    assert!(pool.is_empty());
}

#[test]
fn initialize_twice_faults() {
    let mut module: ModuleContext<MiniModule> = ModuleContext::new();
    assert!(module.initialize(&[1], &[]).is_ok());
    assert_eq!(module.initialize(&[1], &[]).unwrap_err(), Fault::AlreadyInitialized);
}

#[test]
fn operations_before_initialize_fault() {
    let mut module: ModuleContext<MiniModule> = ModuleContext::new();
    assert_eq!(module.create_port("peer").unwrap_err(), Fault::NotInitialized);
    assert_eq!(module.debug(&[]).unwrap_err(), Fault::NotInitialized);
    assert_eq!(module.finish_bootstrap().unwrap_err(), Fault::NotInitialized);
    assert_eq!(module.shutdown().unwrap_err(), Fault::NotInitialized);
}

#[test]
fn duplicate_peer_name_faults() {
    let mut module: ModuleContext<MiniModule> = ModuleContext::new();
    module.initialize(&[], &[]).unwrap();
    assert_eq!(module.create_port("alpha").unwrap(), 0);
    assert_eq!(module.create_port("beta").unwrap(), 1);
    assert_eq!(module.create_port("alpha").unwrap_err(), Fault::DuplicatePeerName);
    // the failed call must not have registered anything
    assert_eq!(module.create_port("gamma").unwrap(), 2);
}

#[test]
fn finish_bootstrap_with_unexported_service_faults() {
    let exports = vec![("Constructor".to_owned(), vec![7u8])];
    let module = MiniModule::new(&[]);
    let mut context = create_foundry_module(module, &exports);
    assert_eq!(context.finish_bootstrap().unwrap_err(), Fault::StagingNotEmpty);
}

#[test]
fn finish_bootstrap_twice_faults_and_freezes_ports() {
    let mut module: ModuleContext<MiniModule> = ModuleContext::new();
    module.initialize(&[], &[]).unwrap();
    assert!(module.finish_bootstrap().is_ok());
    assert_eq!(module.finish_bootstrap().unwrap_err(), Fault::BootstrapAlreadyFinished);
    assert_eq!(module.create_port("late").unwrap_err(), Fault::BootstrapAlreadyFinished);
}

#[test]
fn debug_passes_through_to_user_module() {
    let mut module: ModuleContext<MiniModule> = ModuleContext::new();
    module.initialize(&[1, 2], &[]).unwrap();
    assert_eq!(module.debug(&[3]).unwrap(), vec![1, 2, 3]);
}

#[test]
fn port_operations_before_port_initialize_fault() {
    let mut module: ModuleContext<MiniModule> = ModuleContext::new();
    module.initialize(&[], &[("Constructor".to_owned(), vec![0u8])]).unwrap();
    module.create_port("peer").unwrap();
    assert_eq!(module.port_export("peer", &[0]).unwrap_err(), Fault::PortNotBound);
    assert_eq!(module.port_import("peer", &[]).unwrap_err(), Fault::PortNotBound);
    assert_eq!(module.port_export("nobody", &[0]).unwrap_err(), Fault::NoSuchPort);
    // an unbound link also blocks shutdown
    assert_eq!(module.shutdown().unwrap_err(), Fault::PortNotBound);
}

#[test]
fn shutdown_twice_faults() {
    let mut module: ModuleContext<MiniModule> = ModuleContext::new();
    module.initialize(&[], &[]).unwrap();
    module.finish_bootstrap().unwrap();
    assert!(module.shutdown().is_ok());
    assert_eq!(module.shutdown().unwrap_err(), Fault::AlreadyShutDown);
    // a shut-down module refuses everything else, too
    assert_eq!(module.create_port("peer").unwrap_err(), Fault::AlreadyShutDown);
    assert_eq!(module.debug(&[]).unwrap_err(), Fault::AlreadyShutDown);
    assert_eq!(module.finish_bootstrap().unwrap_err(), Fault::AlreadyShutDown);
    assert_eq!(module.port_export("peer", &[]).unwrap_err(), Fault::NoSuchPort);
}

#[test]
fn create_foundry_module_stages_exports() {
    let exports: Vec<(String, Vec<u8>)> =
        (0..5).map(|i| ("Constructor".to_owned(), vec![i as u8])).collect();
    let module = MiniModule::new(&[]);
    let mut context = create_foundry_module(module, &exports);
    // already initialized
    assert_eq!(context.initialize(&[], &[]).unwrap_err(), Fault::AlreadyInitialized);
    // staged but unexported services block finish_bootstrap
    assert_eq!(context.finish_bootstrap().unwrap_err(), Fault::StagingNotEmpty);
    assert!(context.create_port("peer").is_ok());
}
