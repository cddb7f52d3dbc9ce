//! Background jobs.

pub mod cron;
