//! Address space of an 8-bit home computer: RAM, three ROM images and an I/O
//! register window, with bank switching driven by the latch byte at 0x0001.
pub mod memory;
pub mod laws;
