pub mod discovery;
pub mod health;
pub mod json;
pub mod resolver;
pub mod sample;
pub mod sampler;
pub mod supervisor;
pub mod text;
