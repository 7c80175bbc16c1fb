//! Ingestion of uploaded files: safe names for stored artifacts, the
//! per-request upload lifecycle, the whole-request deadline and the reply
//! that each outcome earns.

pub mod sanitizer;
pub mod naming;
pub mod session;
pub mod reply;
