//! Control logic of logue-SDK oscillator units for the NTS-1 digital kit mkII:
//! runtime checks, parameter handling, wave selection and header data.

pub mod dummy;
pub mod header;
pub mod table32;
pub mod unit;
pub mod util;
pub mod waves;
