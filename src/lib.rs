//! Household chore tracking: people, chores, who is responsible for what,
//! when each chore was last done and when it is due again.
pub mod error;
pub mod text;
pub mod date;
pub mod entities;
pub mod schedule;
pub mod store;
pub mod dispatch;
