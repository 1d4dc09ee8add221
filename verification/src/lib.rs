//! Client core for the SpaceTraders game API: the locally stored session,
//! the requests of each remote operation, the classification of replies,
//! and the routing of commands.

pub mod agent;
pub mod api;
pub mod cli;
pub mod handler;
pub mod helpers;
pub mod json;
pub mod response;
pub mod session;
pub mod text;
