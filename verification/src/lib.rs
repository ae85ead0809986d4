//! Rules of a smart-contract registry: the health report of a contract, the
//! sweep that refreshes every report, and the query behind the activity feed.

pub mod activity_feed;
pub mod clock;
pub mod health;
pub mod health_store;
pub mod ids;
pub mod monitor;
pub mod sql;
pub mod sweep;
