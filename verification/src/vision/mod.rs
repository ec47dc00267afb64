pub mod coord_cache;
pub mod coords;
pub mod matcher;
pub mod template;
