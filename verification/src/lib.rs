//! Backend control plane for a desktop wallet that runs one local payment
//! node per account: a bounded log cache, a lock-guarded node supervisor
//! state machine, a graceful-shutdown coordinator, and the credential
//! encryption routines, all with verified contracts.

pub mod accounts;
pub mod crypto;
pub mod errors;
pub mod hexcode;
pub mod log_cache;
pub mod shutdown;
pub mod strutil;
pub mod supervisor;
