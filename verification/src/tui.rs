pub mod events;
pub mod validators;
