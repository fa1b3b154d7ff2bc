//! A terminal dashboard's core: host readings, the snapshot built from them,
//! the table drawn from a snapshot, and the refresh loop's decisions.

pub mod sysmon;
pub mod text;
pub mod ui;
pub mod units;
