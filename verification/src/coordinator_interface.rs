use vstd::prelude::*;
use remote_trait_object::Config;

verus! {

/// The per-link RPC configuration the coordinator supplies when it drives a
/// link's `initialize`: the collaborator's `Config` minus the worker pool,
/// which the module owns and shares across all of its links to bound total
/// concurrency module-wide.
pub struct PartialRtoConfig {
    /// Name the RPC layer appends to the threads it spawns for this link.
    pub name: String,
    /// Number of concurrent call slots of the link.
    pub call_slots: usize,
    /// Timeout of one remote call; `None` waits indefinitely.
    pub call_timeout: Option<core::time::Duration>,
}

impl PartialRtoConfig {
    /// Relies on the public fields of `remote_trait_object::Config`: copies
    /// the name, the call-slot budget and the call timeout, dropping the
    /// worker pool and the registry capacity.
    #[verifier::external_body]
    pub fn from_rto_config(config: Config) -> Self {
        Self {
            name: config.name,
            call_slots: config.call_slots,
            call_timeout: config.call_timeout,
        }
    }
}

} // verus!
