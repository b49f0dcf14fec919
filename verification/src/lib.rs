//! Runtime for sandboxed modules that discover each other, trade capability
//! handles over point-to-point RPC links, and tear those links down without
//! ever racing a peer's deallocation.
//!
//! The heart of the crate is the per-module lifecycle state machine
//! ([`bootstrap::ModuleContext`]) together with the per-link bootstrap
//! protocol ([`port::ModulePort`]) and the staging pool of services awaiting
//! export ([`bootstrap::ExportingServicePool`]). The concrete RPC layer
//! (`remote_trait_object`) and the transport are external collaborators: the
//! state machine drives them through a small set of trusted calls, and every
//! lifecycle rule — export a staged handle at most once, finish bootstrap only
//! when the pool is drained, disable every link's tracking sweep before any
//! registry is cleared — is stated in contracts and proved.

pub mod fault;
pub mod rpc;
pub mod module;
pub mod coordinator_interface;
pub mod bootstrap;
pub mod port;
