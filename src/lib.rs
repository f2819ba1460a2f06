//! Bridge between a host byte stream and a 16-bit SPI register bus.
//!
//! The library holds the logic of the bridge: typed register access, the
//! bit-field codec of register values, the parser of host command frames, the
//! relay that turns a command into a sequence of word exchanges, and the
//! framing of responses and diagnostics. The bus and the host stream stay
//! outside: the relay names the word to exchange next and takes back what the
//! bus answered.
pub mod diagnostic;
pub mod frame;
pub mod icm42688;
pub mod register;
pub mod relay;
pub mod slave;
