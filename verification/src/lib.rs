//! Verified core of the file-activity tracker: kernel event records are
//! turned into events, events into wire messages and back.
pub mod api;
pub mod ebpf;
pub mod event;
pub mod ip;
pub mod path;
pub mod store;
pub mod text;
