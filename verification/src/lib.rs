//! An interpreter for the Intel 8080 processor, with the memory, the port
//! interface and the Space Invaders cabinet hardware that it drives.

pub mod alu;
pub mod audio;
pub mod disassemble;
pub mod emulator;
pub mod errors;
pub mod helpers;
pub mod instruction;
pub mod io_handler;
pub mod laws;
pub mod machine;
pub mod memory;
pub mod port;
pub mod processor;
pub mod registers;
pub mod shift_register;
