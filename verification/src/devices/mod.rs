pub mod keyboard;
pub mod display;
pub mod flat_memory;
pub mod segment;
pub mod machine;
