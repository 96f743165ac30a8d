//! Storage migrations: what becomes of records that an earlier layout holds.
//!
//! A migration takes the old records as they were decoded and leaves the new
//! ones in the launchpad. Its first check runs before, on the keys that are
//! stored, and hands its counts as bytes to the last check, which runs after, on
//! what can be read. A record that no longer decodes is so found out.
pub mod v1;
pub mod v2;
