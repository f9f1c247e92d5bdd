pub mod admin;
pub mod chat;
pub mod clock;
pub mod config;
pub mod emulator;
pub mod fanout;
pub mod gba_mem;
pub mod input;
pub mod save;
pub mod text;
pub mod types;
pub mod vote;
