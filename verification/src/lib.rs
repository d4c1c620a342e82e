//! Release-channel aware self-update client: the decisions of the update flow,
//! with the transport and the installer left to a collaborator.

pub mod channel;
pub mod endpoint;
pub mod error;
pub mod fetch;
pub mod install;
pub mod laws;
pub mod pending;
pub mod record;
pub mod store;
