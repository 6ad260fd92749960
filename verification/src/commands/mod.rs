pub mod alias;
pub mod command;
pub mod convert;
pub mod help;
pub mod search;
