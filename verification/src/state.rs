//! Records and value types that the operations read and update.

pub mod custody;
pub mod oracle;
pub mod oracle_lemmas;
pub mod perpetuals;
pub mod pool;
pub mod position;
