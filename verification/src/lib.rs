//! Verified core of the Entanglo input-sharing protocol: key and modifier
//! translation, input capture and injection decisions, the per-connection
//! session state machine, the multi-peer control gates, and the envelope
//! and payload rules of the wire protocol.

pub mod keymap;
pub mod input_event;
pub mod modifiers;
pub mod capture;
pub mod inject;
pub mod control;
pub mod payloads;
pub mod message_type;
pub mod session;
pub mod envelope;
pub mod clipboard;
pub mod file_transfer;
pub mod update;
pub mod url_push;
pub mod edge;
pub mod group_file;
pub mod network_quality;
pub mod text;
pub mod trust_store;
pub mod device_list;
pub mod screenshot;
pub mod pages;
pub mod discovery;
