//! Register snapshots for a debugger: the values of a core's registers as
//! they were read at one halt, looked up by raw register number or by the
//! role a register plays on the core's architecture.

pub mod architecture;
pub mod register_file;
pub mod registers;
