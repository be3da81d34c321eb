pub mod stylizer;
pub mod style;

