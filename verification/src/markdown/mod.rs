pub mod blocks;
pub mod engine;
pub mod render;
