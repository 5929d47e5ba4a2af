pub mod classes;
pub mod races;
pub mod weapons;
