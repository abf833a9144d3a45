//! The interpreter: instruction decoding, the machine state and its model,
//! the display, the key pad, and the laws that relate them.

pub mod bits;
pub mod decode;
pub mod keyboard;
pub mod laws;
pub mod machine;
mod random;
pub mod screen;
pub mod state;

pub use decode::{decode, nibbles, Opcode};
pub use keyboard::{keycode_from_hex, Keyboard};
pub use machine::Chip8;
pub use screen::{Rect, Screen};
pub use state::{Fault, State};
