//! A chat relay core: the envelope type exchanged by clients and the relay,
//! the per-connection session state machine, the relay step that fixes a
//! total order, the decisions of the push-notification dispatcher, and the
//! replies of the user and subscription registration endpoints.

pub mod message;
pub mod session;
pub mod dispatch;
pub mod relay;
pub mod registry;
