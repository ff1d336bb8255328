//! Verified core of a GitHub front end for a merge bot.

pub mod access;
pub mod delivery;
pub mod desc;
pub mod error;
pub mod http;
pub mod pr;
pub mod repos;
pub mod teams;
pub mod text;
pub mod ui;
pub mod webhook;
pub mod worker;
