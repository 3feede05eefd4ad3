//! Governance, membership and room lifecycle for a federation of
//! message-passing actors, together with the typed request/response
//! plumbing used to call collaborator actors.

pub mod actor;
pub mod call;
pub mod laws;
pub mod provision;
pub mod state;
pub mod types;

pub use actor::ActorId;
