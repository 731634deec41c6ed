//! Liveness watchdog for a blockchain node: compares the chain head of a local
//! node with a reference node, classifies the outcome and holds alerts back for
//! a cooldown.

pub mod hex;
pub mod rpc;
pub mod health;
pub mod cooldown;
pub mod dispatch;
pub mod watchdog;
pub mod redact;
pub mod settings;
pub mod alert_text;
