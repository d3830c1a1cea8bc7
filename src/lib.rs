//! A plugin runtime for trading algorithms: the value model of orders and
//! positions, the registry of dynamically loaded algorithms with its ABI
//! check, the lifecycle that drives one loaded algorithm, and the settings
//! and command decisions of the host.

pub mod apis;
pub mod derivative;
pub mod error;
pub mod init;
pub mod instruction;
pub mod load;
pub mod order;
pub mod position;
pub mod session;
pub mod settings;
pub mod text;
pub mod time;
