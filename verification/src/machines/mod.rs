pub mod eater;
pub mod rom;
pub mod kim1;
pub mod pet;
pub mod apple1;
