pub mod decision;
pub mod laws;
pub mod models;
pub mod platform;
pub mod registry;
pub mod service;
pub mod steps;
pub mod text;
