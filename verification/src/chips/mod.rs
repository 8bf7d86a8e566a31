pub mod acia;
pub mod pia;
pub mod pia_reg;
pub mod via_reg;
pub mod via;
