pub mod action;
pub mod step;
