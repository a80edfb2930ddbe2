pub mod engine;
pub mod grid;
pub mod laws;
pub mod rules;
pub mod settings;
pub mod stroke;
