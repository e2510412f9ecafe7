//! Decision logic of the Alfen Eve tools: a register explorer, a solar
//! controller and a watcher of the maximum current.

pub mod attempt_laws;
pub mod bytes;
pub mod control_laws;
pub mod discovery;
pub mod encoding;
pub mod explorer;
pub mod explorer_config;
pub mod explorer_laws;
pub mod ieee;
pub mod json;
pub mod json_text;
pub mod power;
pub mod power_laws;
pub mod publish_laws;
pub mod register_laws;
pub mod registers;
pub mod row_laws;
pub mod rows;
pub mod solar;
pub mod solar_config;
pub mod solar_laws;
pub mod solar_mode;
pub mod solar_state;
pub mod step_laws;
pub mod text;
pub mod text_laws;
pub mod transfer;
pub mod transfer_laws;
pub mod watch;
pub mod word_laws;
pub mod words;
pub mod worker;
pub mod worker_laws;
