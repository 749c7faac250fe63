pub mod error_code;
pub mod text;
pub mod ticket;
pub mod forward;
pub mod listener;
pub mod connector;
pub mod cli;
