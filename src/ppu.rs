pub mod addr_reg;
pub mod control_reg;
pub mod mask;
pub mod nes_ppu;

pub mod scroll;
pub mod status;
