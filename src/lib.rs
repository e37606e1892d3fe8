//! A store of quotes attributed to chat users, with the text a chat bot
//! replies with and the service unit it can print.

mod decimal;

pub mod command;
pub mod quote;
pub mod reply;
pub mod store;
pub mod unit;
