//! Command encoding and reply decoding for the Semtech LR2021 radio.
//!
//! The library turns each driver operation into plain data: the command
//! frames to put on the bus (opcode plus packed parameters), the replies it
//! expects back, and what those replies decode to. Moving bytes over SPI is
//! left to the host, which hands the library the raw status and payload bytes
//! it read. The one exchange this part frames unlike every other, the Rx FIFO
//! read, is described as a step function that the host drives.

pub mod cmd;
pub mod hal;
pub mod xfer;
pub mod flrc;
pub mod lora;
pub mod radio;
pub mod system;
pub mod ffi;
