pub mod capture;
pub mod input;
pub mod window;
