use vstd::prelude::*;
use remote_trait_object::raw_exchange::{HandleToExchange, Skeleton};
use remote_trait_object::Context;

verus! {

/// The capability set that a module author supplies to make a working module.
///
/// The runtime never looks inside the instance: it constructs it once from
/// opaque bytes, asks it for service objects to stage, hands it the proxies
/// imported from peers, and forwards debug bytes. Every access happens through
/// the owning [`crate::bootstrap::ModuleContext`], which serializes them.
pub trait UserModule: Sized {
    /// Creates an instance of the module from opaque argument bytes.
    fn new(arg: &[u8]) -> Self;

    /// Creates a service object from a constructor name and argument, to be
    /// staged for export and later claimed by some link's `export`.
    fn prepare_service_to_export(&mut self, ctor_name: &str, ctor_arg: &[u8]) -> Skeleton;

    /// Registers a service imported from the peer `exporter_module`: the
    /// handle must be turned into a proxy bound to `rto_context`, the link it
    /// arrived on, and remembered under `name`.
    fn import_service(
        &mut self,
        rto_context: &Context,
        exporter_module: &str,
        name: &str,
        handle: HandleToExchange,
    );

    /// Operational introspection pass-through; no protocol meaning.
    fn debug(&mut self, arg: &[u8]) -> Vec<u8>;
}

} // verus!
