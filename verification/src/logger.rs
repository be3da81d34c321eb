pub mod datetime;
