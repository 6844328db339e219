//! Turns the project settings of the Axiom context server into the command
//! line that launches its helper process.
pub mod args;
pub mod decimal;
pub mod launch;
pub mod laws;
pub mod settings;
