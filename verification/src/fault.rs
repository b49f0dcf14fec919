use vstd::prelude::*;

verus! {

/// A protocol fault: the coordinator or the module author violated the
/// module / link lifecycle state machine.
///
/// Faults are not recoverable runtime conditions. Continuing after one would
/// operate on undefined state, so the embedding is expected to abort the
/// offending module's process or thread when a call reports a fault.
#[derive(Debug, Clone, Copy, PartialEq, Eq, Structural)]
pub enum Fault {
    /// `initialize` was called on a module that was already initialized.
    AlreadyInitialized,
    /// The operation needs an initialized module and none is present.
    NotInitialized,
    /// `create_port` was called with a peer name that already has a link.
    DuplicatePeerName,
    /// `finish_bootstrap` was called twice, or `create_port` after it.
    BootstrapAlreadyFinished,
    /// `finish_bootstrap` while some staged service was never exported.
    StagingNotEmpty,
    /// An export named a staging-pool index that is out of range.
    IndexOutOfRange,
    /// An export named a staged slot whose handle was already taken.
    AlreadyExported,
    /// `initialize` was called on a link whose transport is already bound.
    PortAlreadyBound,
    /// `export` or `import` on a link with no transport bound yet.
    PortNotBound,
    /// The link's registry cannot register any more service objects.
    RegistryFull,
    /// The user module instance is gone: shutdown has already begun.
    ModuleUnavailable,
    /// A second teardown of an already torn-down module or link.
    AlreadyShutDown,
    /// No link with the given peer name exists.
    NoSuchPort,
}

} // verus!
