pub mod client;
pub mod listen_command;
pub mod send_command;
