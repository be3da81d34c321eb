pub mod sched;
pub mod colors;
pub mod stylize;
pub mod logger;
pub mod threadpool;
pub mod tui;
mod text;
