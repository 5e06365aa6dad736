//! Extension records: the typed, variable-length records that follow the fixed
//! fields of an extensible account.

pub mod list;
pub mod metadata;
pub mod record;
pub mod stream;
