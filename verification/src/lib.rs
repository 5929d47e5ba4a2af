//! Data model and screen logic of a D&D character tracker.

pub mod class;
pub mod consts;
pub mod controller;
pub mod models;
pub mod pages;
pub mod record;
pub mod text;
