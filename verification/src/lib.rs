//! Verified core of the Inkwell desktop signing flow: wire models, request
//! validation, the single-request lifecycle, framing for the native host, the
//! renderer sidecar protocol, and authenticated local IPC.

pub mod protocol;
pub mod request_machine;
pub mod text;
pub mod validation;
pub mod byte_io;
pub mod native_framing;
pub mod renderer_protocol;
pub mod local_ipc;
pub mod native_host;
pub mod renderer;
pub mod deployment;
pub mod review_session;
pub mod desktop_link;
