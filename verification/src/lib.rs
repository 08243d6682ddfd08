//! Correlation layer for several instances of a LwM2M protocol engine in one
//! process.
//!
//! The engine identifies an instance only by an opaque native handle and
//! reports through process-wide hooks. This crate derives a stable identity
//! from the handle, keeps the registry that routes a notification raised for
//! a handle to the mailbox of the instance that owns it, and records the
//! bytes the engine most recently asked to send.
//!
//! Every operation is sequential and total over its stated inputs; a caller
//! that shares a [`Registry`] or an [`OutboundBuffer`] between threads guards
//! each with one lock, so that any concurrent run is an interleaving of the
//! operations described here.

pub mod identity;
pub mod outbound;
pub mod registry;
pub mod server;

pub use identity::{calculate_hash, lwm2m_session_is_equal};
pub use outbound::{lwm2m_buffer_send, OutboundBuffer, COAP_NO_ERROR, MAX_PACKET_SIZE};
pub use registry::{DispatchError, ReceiveError, Registry};
pub use server::{monitoring_callback, CallbackOutcome, MonitoringHandler, Server, ServerError};
