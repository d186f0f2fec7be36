//! Door lock logic of the OXIDOOR system: the lock state machine with its
//! transition rules, timeouts and change history, and the server settings
//! (database selection and command-line overrides).

pub mod error;
pub mod lock;
pub mod settings;

pub use error::LockError;
