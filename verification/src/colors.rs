pub mod stylizer;
