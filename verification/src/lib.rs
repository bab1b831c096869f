//! ChronoWard's core: the stored-data format with its encryption sentinel,
//! the keychain-backed key handling, the emergency (read-only) state, the
//! focus-time and hours-warning scheduler, and the decisions behind the
//! desktop commands.

pub mod crypto;
pub mod encoding;
pub mod keychain;
pub mod scheduler;
pub mod state;
pub mod storage;
pub mod text;
pub mod ui;
