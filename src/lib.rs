pub mod error;
pub mod launcher;
pub mod pass_lib;
pub mod command;
pub mod pass_menu;
pub mod date;
pub mod todo;
pub mod menu;
pub mod engine;
