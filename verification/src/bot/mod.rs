pub mod cycle;
pub mod humanize;
pub mod sequence;
