//! Typed record kinds and their per-kind decoders.

pub mod area;
pub mod branch;
pub mod bus;
pub mod facts;
pub mod fixed_shunt;
pub mod generator;
pub mod header;
pub mod impedance_correction;
pub mod induction_machine;
pub mod interarea_transfer;
pub mod load;
pub mod multisection_line;
pub mod multiterminal_dc_line;
pub mod owner;
pub mod switched_shunt;
pub mod system_switching_device;
pub mod transformer;
pub mod two_terminal_dc;
pub mod vsc_dc;
pub mod zone;
