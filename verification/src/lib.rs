//! Typed frame headers for a stream multiplexer.
//!
//! Every frame that travels over the shared connection starts with a fixed
//! header: a version, a frame kind, control flags, a stream identifier and one
//! 32-bit slot whose meaning depends on the kind. This crate provides the
//! untyped record ([`frame::header::RawHeader`]) and a kind-indexed wrapper
//! ([`frame::header::Header`]) that only offers the operations that make sense
//! for its kind.

pub mod frame;
pub mod stream;
