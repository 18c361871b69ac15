//! The confidential launch of a virtual machine under AMD SEV, as decisions:
//! which step comes next, what it is given, and what a failure means.
//!
//! The library performs no input or output. A setup ([`setup::Setup`]) obtains
//! the vendor's certificate chain and negotiates the launch session; a
//! controller ([`launch::AmdSev`]) then takes the launch through its
//! commands. Both tell their caller what to do, one action at a time, and take
//! the caller's report on how it went.

pub mod agent;
pub mod chain;
pub mod codec;
pub mod cookie;
pub mod cpu;
pub mod error;
pub mod launch;
pub mod outside;
pub mod plan;
pub mod setup;
mod text;
pub mod types;
