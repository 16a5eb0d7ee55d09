pub mod config;
pub mod matches;
pub mod queries;
pub mod suggestions;
pub mod wait_for;
