mod gpu;
pub mod renderer;
pub mod settings;
