//! An emulator core for an 8-bit handheld game console's processor.
//!
//! The library contains the instruction-execution engine (register file,
//! memory bus, fetch/decode/execute loop with a prefixed bit-operations
//! table), the tile renderer that turns video memory into a pixel buffer,
//! and the execution driver's decision logic.  Host concerns (window
//! creation, input polling, frame presentation, ROM-file reading) live
//! outside the library and talk to it through plain values.

pub mod cpu;
pub mod decode;
pub mod driver;
pub mod laws;
pub mod registers;
pub mod renderer;
